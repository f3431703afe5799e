//! Effect descriptors: the side effects the verified core asks the thin
//! unverified driver to perform.
//!
//! The core never touches the operating system itself.  Each dispatcher or
//! update-session call returns a list of these descriptors; the driver
//! carries them out.  Notifications and browser opens are best effort by
//! policy: the driver logs a failure and continues.

use vstd::prelude::*;
use crate::theme::Theme;
use crate::windows::{ContentSource, SourceView};

verus! {

/// The event name of the one-way notification channel to all windows.
pub open spec fn notice_event() -> Seq<char> {
    "notice"@
}

/// One side effect for the driver.
#[derive(Debug, PartialEq, Eq)]
pub enum Effect {
    /// Build the operating-system window for a freshly registered handle.
    CreateWindow { label: String, source: ContentSource },
    /// Show and focus the operating-system window carrying the label.
    ShowFocus { label: String },
    /// Set the native chrome theme on every live window.
    ApplyTheme { theme: Theme },
    /// Emit a one-way event with a payload to every live window.
    EmitAll { event: String, payload: String },
    /// Open a URL in the default browser.
    OpenExternal { url: String },
    /// Run one update cycle on an independently scheduled task.
    StartUpdateCheck { silent: bool },
    /// Persist this theme choice through the configuration store, by a
    /// fresh read-modify-write against the on-disk document.
    PersistTheme { theme: Theme },
    /// Reload the content of the window carrying the label.
    Reload { label: String },
    /// Navigate the window's content one step back.
    HistoryBack { label: String },
    /// Navigate the window's content one step forward.
    HistoryForward { label: String },
    /// Open the developer tools of the window.
    OpenDevtools { label: String },
    /// Pin the window above the others, or unpin it.
    SetAlwaysOnTop { label: String, value: bool },
    /// Restart the process.
    Restart,
}

/// Mathematical view of an effect.
pub enum EffectView {
    CreateWindow { label: Seq<char>, source: SourceView },
    ShowFocus { label: Seq<char> },
    ApplyTheme { theme: Theme },
    EmitAll { event: Seq<char>, payload: Seq<char> },
    OpenExternal { url: Seq<char> },
    StartUpdateCheck { silent: bool },
    PersistTheme { theme: Theme },
    Reload { label: Seq<char> },
    HistoryBack { label: Seq<char> },
    HistoryForward { label: Seq<char> },
    OpenDevtools { label: Seq<char> },
    SetAlwaysOnTop { label: Seq<char>, value: bool },
    Restart,
}

impl View for Effect {
    type V = EffectView;

    open spec fn view(&self) -> EffectView {
        match self {
            Effect::CreateWindow { label, source } => EffectView::CreateWindow {
                label: label@,
                source: source@,
            },
            Effect::ShowFocus { label } => EffectView::ShowFocus { label: label@ },
            Effect::ApplyTheme { theme } => EffectView::ApplyTheme { theme: *theme },
            Effect::EmitAll { event, payload } => EffectView::EmitAll {
                event: event@,
                payload: payload@,
            },
            Effect::OpenExternal { url } => EffectView::OpenExternal { url: url@ },
            Effect::StartUpdateCheck { silent } => EffectView::StartUpdateCheck {
                silent: *silent,
            },
            Effect::PersistTheme { theme } => EffectView::PersistTheme { theme: *theme },
            Effect::Reload { label } => EffectView::Reload { label: label@ },
            Effect::HistoryBack { label } => EffectView::HistoryBack { label: label@ },
            Effect::HistoryForward { label } => EffectView::HistoryForward { label: label@ },
            Effect::OpenDevtools { label } => EffectView::OpenDevtools { label: label@ },
            Effect::SetAlwaysOnTop { label, value } => EffectView::SetAlwaysOnTop {
                label: label@,
                value: *value,
            },
            Effect::Restart => EffectView::Restart,
        }
    }
}

/// A one-way notice to every live window, as the shell formats it:
/// "title: body".
pub fn notify_core(title: &str, body: &str) -> (e: Effect)
    ensures
        e@ == (EffectView::EmitAll { event: notice_event(), payload: title@ + ": "@ + body@ }),
{
    let payload = <String as vstd::string::StringExecFns>::from_str(title).concat(": ").concat(
        body,
    );
    proof {
        assert(payload@ == title@ + ": "@ + body@);
    }
    Effect::EmitAll {
        event: <String as vstd::string::StringExecFns>::from_str("notice"),
        payload,
    }
}

} // verus!
