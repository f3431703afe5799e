use chatgpt_shell::effect::Effect;
use chatgpt_shell::update::{UpdateSession, UpdateState};

fn notice(text: &str) -> Effect {
    Effect::EmitAll {
        event: String::from("notice"),
        payload: String::from(text),
    }
}

#[test]
fn start_check_is_single_flight_while_checking() {
    let mut s = UpdateSession::new();
    assert_eq!(s.state(), UpdateState::Idle);
    assert!(s.start_check(false));
    assert_eq!(s.state(), UpdateState::Checking);
    // A second request while the session is active starts nothing and
    // changes nothing.
    assert!(!s.start_check(false));
    assert!(!s.start_check(true));
    assert_eq!(s.state(), UpdateState::Checking);
    assert!(!s.is_silent());
}

#[test]
fn start_check_is_refused_while_downloading_and_installing() {
    let mut s = UpdateSession::new();
    s.start_check(false);
    s.on_update_available();
    assert_eq!(s.state(), UpdateState::Downloading);
    assert!(!s.start_check(false));
    s.on_install_staged();
    assert_eq!(s.state(), UpdateState::Installing);
    assert!(!s.start_check(false));
}

#[test]
fn no_update_walks_idle_checking_up_to_date_idle_with_one_notice() {
    let mut s = UpdateSession::new();
    assert_eq!(s.state(), UpdateState::Idle);
    assert!(s.start_check(false));
    assert_eq!(s.state(), UpdateState::Checking);
    let fx = s.on_no_update();
    assert_eq!(s.state(), UpdateState::UpToDate);
    // Exactly one notice, and no restart.
    assert_eq!(fx, vec![notice("You’re up to date.")]);
    s.settle();
    assert_eq!(s.state(), UpdateState::Idle);
}

#[test]
fn silent_no_update_emits_nothing() {
    let mut s = UpdateSession::new();
    assert!(s.start_check(true));
    assert!(s.is_silent());
    let fx = s.on_no_update();
    assert_eq!(fx, vec![]);
    assert_eq!(s.state(), UpdateState::UpToDate);
}

#[test]
fn an_available_update_downloads_installs_and_restarts() {
    let mut s = UpdateSession::new();
    s.start_check(false);
    let fx = s.on_update_available();
    assert_eq!(s.state(), UpdateState::Downloading);
    assert_eq!(fx, vec![notice("Downloading update…")]);
    let fx = s.on_install_staged();
    assert_eq!(s.state(), UpdateState::Installing);
    assert_eq!(fx, vec![notice("Installing update…")]);
    let fx = s.on_install_done();
    assert_eq!(s.state(), UpdateState::Restarting);
    assert_eq!(
        fx,
        vec![notice("Update installed. Restarting…"), Effect::Restart]
    );
}

#[test]
fn a_silent_install_still_restarts() {
    let mut s = UpdateSession::new();
    s.start_check(true);
    s.on_update_available();
    let fx = s.on_install_done();
    assert_eq!(fx, vec![Effect::Restart]);
}

#[test]
fn a_failed_check_reports_the_reason_and_is_retryable() {
    let mut s = UpdateSession::new();
    s.start_check(false);
    let fx = s.on_check_failed(String::from("network unreachable"));
    assert_eq!(s.state(), UpdateState::Failed);
    assert_eq!(
        s.failure_reason().map(String::as_str),
        Some("network unreachable")
    );
    assert_eq!(fx, vec![notice("Update check failed: network unreachable")]);
    s.settle();
    assert_eq!(s.state(), UpdateState::Idle);
    assert!(s.failure_reason().is_none());
    assert!(s.start_check(false));
}

#[test]
fn a_failed_download_reports_the_reason() {
    let mut s = UpdateSession::new();
    s.start_check(false);
    s.on_update_available();
    let fx = s.on_download_failed(String::from("bad signature"));
    assert_eq!(s.state(), UpdateState::Failed);
    assert_eq!(fx, vec![notice("Update failed: bad signature")]);
}

#[test]
fn silent_failures_emit_nothing() {
    let mut s = UpdateSession::new();
    s.start_check(true);
    let fx = s.on_check_failed(String::from("offline"));
    assert_eq!(fx, vec![]);
    assert_eq!(
        s.failure_reason().map(String::as_str),
        Some("offline")
    );
}

#[test]
fn a_terminal_session_may_be_restarted_without_settling() {
    let mut s = UpdateSession::new();
    s.start_check(false);
    s.on_no_update();
    assert_eq!(s.state(), UpdateState::UpToDate);
    // Terminal states count as destroyed sessions: a new check may begin.
    assert!(s.start_check(false));
    assert_eq!(s.state(), UpdateState::Checking);
}
