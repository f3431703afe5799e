//! The update controller: a single-flight state machine that drives one
//! check → download → install → restart cycle at a time.
//!
//! The session decides; the driver performs.  Every network step happens
//! outside, on an independently scheduled task, and reports back through
//! the `on_*` events below.  A new cycle is refused while one is active,
//! so two rapid requests can never run two checks.  Failures end the
//! session, never the application: the user may simply start another
//! check.

use vstd::prelude::*;
use crate::effect::{notice_event, Effect, EffectView};

verus! {

/// The states of one update cycle.
#[derive(Clone, Copy, Debug, PartialEq, Eq, Structural)]
pub enum UpdateState {
    Idle,
    Checking,
    Downloading,
    Installing,
    Restarting,
    UpToDate,
    Failed,
}

/// A session is active while its outside work may still be running.
pub open spec fn is_active(s: UpdateState) -> bool {
    s == UpdateState::Checking || s == UpdateState::Downloading || s == UpdateState::Installing
}

/// Mathematical view of an update session.
#[verifier::ext_equal]
pub struct SessionView {
    pub state: UpdateState,
    pub silent: bool,
    pub failure: Option<Seq<char>>,
}

impl SessionView {
    /// A fresh, idle session.
    pub open spec fn spec_idle() -> SessionView {
        SessionView { state: UpdateState::Idle, silent: false, failure: None }
    }
}

/// What a start request does: refused while a session is active, otherwise
/// a new session in `Checking` with the requested noise level.
pub open spec fn spec_start(s: SessionView, silent: bool) -> (SessionView, bool) {
    if is_active(s.state) {
        (s, false)
    } else {
        (SessionView { state: UpdateState::Checking, silent, failure: None }, true)
    }
}

pub open spec fn notice_up_to_date() -> Seq<char> {
    "You’re up to date."@
}

pub open spec fn notice_downloading() -> Seq<char> {
    "Downloading update…"@
}

pub open spec fn notice_installing() -> Seq<char> {
    "Installing update…"@
}

pub open spec fn notice_restarting() -> Seq<char> {
    "Update installed. Restarting…"@
}

pub open spec fn notice_check_failed_prefix() -> Seq<char> {
    "Update check failed: "@
}

pub open spec fn notice_update_failed_prefix() -> Seq<char> {
    "Update failed: "@
}

/// A notice effect carrying this payload.
pub open spec fn notice_effect(payload: Seq<char>) -> EffectView {
    EffectView::EmitAll { event: notice_event(), payload: payload }
}

/// One notice unless the session runs silent, in which case none.
pub open spec fn notices_unless_silent(silent: bool, payload: Seq<char>) -> Seq<EffectView> {
    if silent {
        Seq::empty()
    } else {
        seq![notice_effect(payload)]
    }
}

/// The views of the effects handed back.
pub open spec fn fx_views(fx: Seq<Effect>) -> Seq<EffectView> {
    fx.map_values(|e: Effect| e@)
}

fn notice(payload: &str) -> (e: Effect)
    ensures
        e@ == notice_effect(payload@),
{
    Effect::EmitAll {
        event: <String as vstd::string::StringExecFns>::from_str("notice"),
        payload: <String as vstd::string::StringExecFns>::from_str(payload),
    }
}

/// One update session.  At most one cycle is ever in flight: the shell
/// holds one session, and a start request against an active session is
/// refused.
pub struct UpdateSession {
    state: UpdateState,
    silent: bool,
    failure: Option<String>,
}

impl View for UpdateSession {
    type V = SessionView;

    closed spec fn view(&self) -> SessionView {
        SessionView {
            state: self.state,
            silent: self.silent,
            failure: match self.failure {
                Some(ref r) => Some(r@),
                None => None,
            },
        }
    }
}

impl UpdateSession {
    /// The current state, for the driver and for tests.
    pub fn state(&self) -> (s: UpdateState)
        ensures
            s == self@.state,
    {
        self.state
    }

    /// Whether this session runs without user-visible notices.
    pub fn is_silent(&self) -> (b: bool)
        ensures
            b == self@.silent,
    {
        self.silent
    }

    /// The reason the session failed, if it did.
    pub fn failure_reason(&self) -> (r: Option<&String>)
        ensures
            match r {
                Some(s) => self@.failure == Some(s@),
                None => self@.failure is None,
            },
    {
        match self.failure {
            Some(ref r) => Some(r),
            None => None,
        }
    }

    /// A fresh, idle session.
    pub fn new() -> (s: UpdateSession)
        ensures
            s@ == SessionView::spec_idle(),
    {
        let s = UpdateSession { state: UpdateState::Idle, silent: false, failure: None };
        proof {
            assert(s@ =~= SessionView::spec_idle());
        }
        s
    }

    /// The single entry point: ask for one update cycle.  Refused — with
    /// nothing changed and nothing started — while a session is already
    /// checking, downloading or installing.
    pub fn start_check(&mut self, silent: bool) -> (started: bool)
        ensures
            (final(self)@, started) == spec_start(old(self)@, silent),
    {
        match self.state {
            UpdateState::Checking | UpdateState::Downloading | UpdateState::Installing => {
                proof {
                    assert(final(self)@ =~= old(self)@);
                }
                false
            },
            _ => {
                self.state = UpdateState::Checking;
                self.silent = silent;
                self.failure = None;
                true
            },
        }
    }

    /// The outside check reported that no update exists.  The session is
    /// complete: one notice (unless silent), and the next start request
    /// will be accepted.
    pub fn on_no_update(&mut self) -> (fx: Vec<Effect>)
        requires
            old(self)@.state == UpdateState::Checking,
        ensures
            final(self)@ == (SessionView { state: UpdateState::UpToDate, ..old(self)@ }),
            fx_views(fx@) == notices_unless_silent(old(self)@.silent, notice_up_to_date()),
    {
        self.state = UpdateState::UpToDate;
        let mut fx: Vec<Effect> = Vec::new();
        if !self.silent {
            fx.push(notice("You’re up to date."));
        }
        proof {
            assert(fx_views(fx@) =~= notices_unless_silent(old(self)@.silent, notice_up_to_date()));
        }
        fx
    }

    /// The outside check found an update: the download begins, with one
    /// notice (unless silent).
    pub fn on_update_available(&mut self) -> (fx: Vec<Effect>)
        requires
            old(self)@.state == UpdateState::Checking,
        ensures
            final(self)@ == (SessionView { state: UpdateState::Downloading, ..old(self)@ }),
            fx_views(fx@) == notices_unless_silent(old(self)@.silent, notice_downloading()),
    {
        self.state = UpdateState::Downloading;
        let mut fx: Vec<Effect> = Vec::new();
        if !self.silent {
            fx.push(notice("Downloading update…"));
        }
        proof {
            assert(fx_views(fx@) =~= notices_unless_silent(
                old(self)@.silent,
                notice_downloading(),
            ));
        }
        fx
    }

    /// The outside check failed.  Terminal for the session, not for the
    /// application: the user may retry with another start request.
    pub fn on_check_failed(&mut self, reason: String) -> (fx: Vec<Effect>)
        requires
            old(self)@.state == UpdateState::Checking,
        ensures
            final(self)@ == (SessionView {
                state: UpdateState::Failed,
                failure: Some(reason@),
                ..old(self)@
            }),
            fx_views(fx@) == notices_unless_silent(
                old(self)@.silent,
                notice_check_failed_prefix() + reason@,
            ),
    {
        self.state = UpdateState::Failed;
        let mut fx: Vec<Effect> = Vec::new();
        if !self.silent {
            let payload = <String as vstd::string::StringExecFns>::from_str(
                "Update check failed: ",
            ).concat(reason.as_str());
            proof {
                reveal_strlit("Update check failed: ");
                reveal_strlit("notice");
            }
            fx.push(
                Effect::EmitAll {
                    event: <String as vstd::string::StringExecFns>::from_str("notice"),
                    payload,
                },
            );
        }
        self.failure = Some(reason);
        proof {
            assert(final(self)@ =~= (SessionView {
                state: UpdateState::Failed,
                failure: Some(reason@),
                ..old(self)@
            }));
            assert(fx_views(fx@) =~= notices_unless_silent(
                old(self)@.silent,
                notice_check_failed_prefix() + reason@,
            ));
        }
        fx
    }

    /// Local installation artifacts are staged: the cycle moves to
    /// `Installing`, with one notice (unless silent).
    pub fn on_install_staged(&mut self) -> (fx: Vec<Effect>)
        requires
            old(self)@.state == UpdateState::Downloading,
        ensures
            final(self)@ == (SessionView { state: UpdateState::Installing, ..old(self)@ }),
            fx_views(fx@) == notices_unless_silent(old(self)@.silent, notice_installing()),
    {
        self.state = UpdateState::Installing;
        let mut fx: Vec<Effect> = Vec::new();
        if !self.silent {
            fx.push(notice("Installing update…"));
        }
        proof {
            assert(fx_views(fx@) =~= notices_unless_silent(old(self)@.silent, notice_installing()));
        }
        fx
    }

    /// Download and install completed: the session asks for the process
    /// restart that ends it.  There is no returning to idle from here.
    pub fn on_install_done(&mut self) -> (fx: Vec<Effect>)
        requires
            old(self)@.state == UpdateState::Downloading || old(self)@.state
                == UpdateState::Installing,
        ensures
            final(self)@ == (SessionView { state: UpdateState::Restarting, ..old(self)@ }),
            fx_views(fx@) == notices_unless_silent(old(self)@.silent, notice_restarting()).push(
                EffectView::Restart,
            ),
    {
        self.state = UpdateState::Restarting;
        let mut fx: Vec<Effect> = Vec::new();
        if !self.silent {
            fx.push(notice("Update installed. Restarting…"));
        }
        fx.push(Effect::Restart);
        proof {
            assert(fx_views(fx@) =~= notices_unless_silent(
                old(self)@.silent,
                notice_restarting(),
            ).push(EffectView::Restart));
        }
        fx
    }

    /// Download or install failed.  Terminal for the session; retryable.
    pub fn on_download_failed(&mut self, reason: String) -> (fx: Vec<Effect>)
        requires
            old(self)@.state == UpdateState::Downloading || old(self)@.state
                == UpdateState::Installing,
        ensures
            final(self)@ == (SessionView {
                state: UpdateState::Failed,
                failure: Some(reason@),
                ..old(self)@
            }),
            fx_views(fx@) == notices_unless_silent(
                old(self)@.silent,
                notice_update_failed_prefix() + reason@,
            ),
    {
        self.state = UpdateState::Failed;
        let mut fx: Vec<Effect> = Vec::new();
        if !self.silent {
            let payload = <String as vstd::string::StringExecFns>::from_str(
                "Update failed: ",
            ).concat(reason.as_str());
            fx.push(
                Effect::EmitAll {
                    event: <String as vstd::string::StringExecFns>::from_str("notice"),
                    payload,
                },
            );
        }
        self.failure = Some(reason);
        proof {
            assert(final(self)@ =~= (SessionView {
                state: UpdateState::Failed,
                failure: Some(reason@),
                ..old(self)@
            }));
            assert(fx_views(fx@) =~= notices_unless_silent(
                old(self)@.silent,
                notice_update_failed_prefix() + reason@,
            ));
        }
        fx
    }

    /// A terminal session is destroyed: back to idle, ready for the next
    /// start request.
    pub fn settle(&mut self)
        requires
            old(self)@.state == UpdateState::UpToDate || old(self)@.state == UpdateState::Failed,
        ensures
            final(self)@ == SessionView::spec_idle(),
    {
        self.state = UpdateState::Idle;
        self.silent = false;
        self.failure = None;
        proof {
            assert(final(self)@ =~= SessionView::spec_idle());
        }
    }
}

/// Single flight: a start request against a session that is checking,
/// downloading or installing changes nothing and starts nothing, so no
/// second outbound check or download can begin.
pub proof fn lemma_single_flight(s: SessionView, silent: bool)
    requires
        is_active(s.state),
    ensures
        spec_start(s, silent) == (s, false),
{
}

} // verus!
