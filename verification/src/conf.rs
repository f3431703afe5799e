//! The persisted configuration document and its defaults.
//!
//! The document always deserializes into a complete value: the reader
//! substitutes a field's default for anything missing or unreadable and the
//! whole default document for a file it cannot make sense of, so loading
//! never fails (repair on read).

use vstd::prelude::*;
use crate::theme::Theme;

verus! {

/// Mathematical view of the configuration document: every string field as
/// a sequence of characters.
#[verifier::ext_equal]
pub struct ConfView {
    pub theme: Theme,
    pub auto_update: bool,
    pub tray: bool,
    pub popup_search: bool,
    pub stay_on_top: bool,
    pub default_origin: Seq<char>,
    pub origin: Seq<char>,
    pub ua_window: Seq<char>,
    pub ua_tray: Seq<char>,
    pub global_shortcut: Seq<char>,
    pub titlebar: bool,
    pub hide_dock_icon: bool,
}

/// The address both origin fields default to.
pub open spec fn default_origin_chars() -> Seq<char> {
    seq![
        'h',
        't',
        't',
        'p',
        's',
        ':',
        '/',
        '/',
        'c',
        'h',
        'a',
        't',
        'g',
        'p',
        't',
        '.',
        'c',
        'o',
        'm',
    ]
}

impl ConfView {
    /// The default document, written on first run and on repair.
    pub open spec fn spec_default() -> ConfView {
        ConfView {
            theme: Theme::System,
            auto_update: true,
            tray: true,
            popup_search: false,
            stay_on_top: false,
            default_origin: default_origin_chars(),
            origin: default_origin_chars(),
            ua_window: Seq::empty(),
            ua_tray: Seq::empty(),
            global_shortcut: Seq::empty(),
            titlebar: false,
            hide_dock_icon: false,
        }
    }
}

/// The settings document persisted under the user's home directory.
#[derive(Clone, Debug, PartialEq, Eq)]
pub struct ChatConfJson {
    pub theme: Theme,
    pub auto_update: bool,
    pub tray: bool,
    pub popup_search: bool,
    pub stay_on_top: bool,
    pub default_origin: String,
    pub origin: String,
    pub ua_window: String,
    pub ua_tray: String,
    pub global_shortcut: String,
    pub titlebar: bool,
    pub hide_dock_icon: bool,
}

impl View for ChatConfJson {
    type V = ConfView;

    open spec fn view(&self) -> ConfView {
        ConfView {
            theme: self.theme,
            auto_update: self.auto_update,
            tray: self.tray,
            popup_search: self.popup_search,
            stay_on_top: self.stay_on_top,
            default_origin: self.default_origin@,
            origin: self.origin@,
            ua_window: self.ua_window@,
            ua_tray: self.ua_tray@,
            global_shortcut: self.global_shortcut@,
            titlebar: self.titlebar,
            hide_dock_icon: self.hide_dock_icon,
        }
    }
}

impl Default for ChatConfJson {
    /// The default document as a value.
    fn default() -> (c: ChatConfJson)
        ensures
            c@ == ConfView::spec_default(),
    {
        let origin = default_origin_string();
        let c = ChatConfJson {
            theme: Theme::System,
            auto_update: true,
            tray: true,
            popup_search: false,
            stay_on_top: false,
            default_origin: origin.clone(),
            origin,
            ua_window: String::new(),
            ua_tray: String::new(),
            global_shortcut: String::new(),
            titlebar: false,
            hide_dock_icon: false,
        };
        proof {
            assert(c@ =~= ConfView::spec_default());
        }
        c
    }
}

/// The default origin as an owned string.
pub fn default_origin_string() -> (s: String)
    ensures
        s@ == default_origin_chars(),
{
    let s = <String as vstd::string::StringExecFns>::from_str("https://chatgpt.com");
    proof {
        reveal_strlit("https://chatgpt.com");
        assert(s@ =~= default_origin_chars());
    }
    s
}

} // verus!
