use chatgpt_shell::dispatch::{AppShell, CommandId};
use chatgpt_shell::menu::build_menu;
use chatgpt_shell::effect::{notify_core, Effect};
use chatgpt_shell::theme::Theme;
use chatgpt_shell::update::UpdateState;
use chatgpt_shell::windows::ContentSource;

fn release_shell() -> AppShell {
    AppShell::new(false, true)
}

fn count_update_checks(fx: &[Effect]) -> usize {
    fx.iter()
        .filter(|e| matches!(e, Effect::StartUpdateCheck { .. }))
        .count()
}

#[test]
fn open_config_twice_leaves_one_focused_config_window() {
    let mut shell = release_shell();
    let fx1 = shell.dispatch(CommandId::PrefOpenConfig);
    assert_eq!(
        fx1,
        vec![Effect::CreateWindow {
            label: String::from("config"),
            source: ContentSource::App(String::from("index.html#/config")),
        }]
    );
    let fx2 = shell.dispatch(CommandId::PrefOpenConfig);
    assert_eq!(
        fx2,
        vec![Effect::ShowFocus {
            label: String::from("config"),
        }]
    );
    assert_eq!(shell.windows.len(), 1);
    let w = shell.windows.get("config").expect("config window is live");
    assert!(w.visible);
    assert!(w.focused);
}

#[test]
fn dev_builds_point_the_config_window_at_the_dev_server() {
    let mut shell = AppShell::new(true, true);
    let fx = shell.dispatch(CommandId::PrefOpenConfig);
    assert_eq!(
        fx,
        vec![Effect::CreateWindow {
            label: String::from("config"),
            source: ContentSource::External(String::from("http://localhost:1420/#/config")),
        }]
    );
}

#[test]
fn check_updates_twice_starts_one_outbound_check() {
    let mut shell = release_shell();
    let fx1 = shell.dispatch(CommandId::CheckUpdates);
    assert_eq!(count_update_checks(&fx1), 1);
    assert_eq!(fx1, vec![Effect::StartUpdateCheck { silent: false }]);
    assert_eq!(shell.update.state(), UpdateState::Checking);
    // The session is still in flight: the second command must not start a
    // second check.
    let fx2 = shell.dispatch(CommandId::CheckUpdates);
    assert_eq!(count_update_checks(&fx2), 0);
    assert_eq!(fx2, vec![]);
    assert_eq!(shell.update.state(), UpdateState::Checking);
}

#[test]
fn check_updates_after_a_finished_session_starts_again() {
    let mut shell = release_shell();
    shell.dispatch(CommandId::CheckUpdates);
    shell.update.on_no_update();
    shell.update.settle();
    let fx = shell.dispatch(CommandId::CheckUpdates);
    assert_eq!(count_update_checks(&fx), 1);
}

#[test]
fn toggle_darkmode_applies_broadcasts_and_persists() {
    let mut shell = release_shell();
    shell
        .windows
        .ensure_or_focus("core", ContentSource::External(String::from("https://chatgpt.com")));
    // The core window starts on the system theme, so the first toggle
    // resolves to dark.
    let fx = shell.dispatch(CommandId::ToggleDarkmode);
    assert_eq!(
        fx,
        vec![
            Effect::ApplyTheme { theme: Theme::Dark },
            Effect::EmitAll {
                event: String::from("menu-toggle-dark"),
                payload: String::new(),
            },
            Effect::PersistTheme { theme: Theme::Dark },
        ]
    );
    assert_eq!(shell.windows.get("core").unwrap().theme, Theme::Dark);
    // The second toggle returns to light.
    let fx = shell.dispatch(CommandId::ToggleDarkmode);
    assert_eq!(
        fx,
        vec![
            Effect::ApplyTheme { theme: Theme::Light },
            Effect::EmitAll {
                event: String::from("menu-toggle-dark"),
                payload: String::new(),
            },
            Effect::PersistTheme { theme: Theme::Light },
        ]
    );
    assert_eq!(shell.windows.get("core").unwrap().theme, Theme::Light);
}

#[test]
fn unknown_command_ids_are_silently_ignored() {
    let mut shell = release_shell();
    let fx = shell.dispatch_id("no-such-command");
    assert_eq!(fx, vec![]);
    assert_eq!(shell.windows.len(), 0);
    assert_eq!(shell.update.state(), UpdateState::Idle);
}

#[test]
fn dispatch_by_identifier_matches_dispatch_by_command() {
    let mut shell = release_shell();
    let fx = shell.dispatch_id("pref-open-config");
    assert_eq!(
        fx,
        vec![Effect::CreateWindow {
            label: String::from("config"),
            source: ContentSource::App(String::from("index.html#/config")),
        }]
    );
    let fx = shell.dispatch_id("pref-restart");
    assert_eq!(fx, vec![Effect::Restart]);
}

#[test]
fn help_report_bug_opens_the_issue_tracker() {
    let mut shell = release_shell();
    let fx = shell.dispatch(CommandId::HelpReportBug);
    assert_eq!(
        fx,
        vec![Effect::OpenExternal {
            url: String::from("https://github.com/SpellboundScents/ChatGPT/issues/new"),
        }]
    );
}

#[test]
fn help_logs_emit_their_events() {
    let mut shell = release_shell();
    assert_eq!(
        shell.dispatch(CommandId::HelpLog),
        vec![Effect::EmitAll {
            event: String::from("open-chatgpt-log"),
            payload: String::new(),
        }]
    );
    assert_eq!(
        shell.dispatch(CommandId::HelpUpdateLog),
        vec![Effect::EmitAll {
            event: String::from("open-update-log"),
            payload: String::new(),
        }]
    );
}

#[test]
fn view_commands_target_the_core_window() {
    let mut shell = release_shell();
    assert_eq!(
        shell.dispatch(CommandId::Reload),
        vec![Effect::Reload { label: String::from("core") }]
    );
    assert_eq!(
        shell.dispatch(CommandId::ViewBack),
        vec![Effect::HistoryBack { label: String::from("core") }]
    );
    assert_eq!(
        shell.dispatch(CommandId::ViewForward),
        vec![Effect::HistoryForward { label: String::from("core") }]
    );
}

#[test]
fn devtools_only_open_in_development_builds() {
    let mut dev = AppShell::new(true, true);
    assert_eq!(
        dev.dispatch(CommandId::ToggleDevtools),
        vec![Effect::OpenDevtools { label: String::from("core") }]
    );
    let mut release = release_shell();
    assert_eq!(release.dispatch(CommandId::ToggleDevtools), vec![]);
}

#[test]
fn stay_on_top_toggles_the_core_window() {
    let mut shell = release_shell();
    assert_eq!(shell.dispatch(CommandId::ToggleStayOnTop), vec![]);
    shell
        .windows
        .ensure_or_focus("core", ContentSource::External(String::from("https://chatgpt.com")));
    assert_eq!(
        shell.dispatch(CommandId::ToggleStayOnTop),
        vec![Effect::SetAlwaysOnTop {
            label: String::from("core"),
            value: true,
        }]
    );
    assert!(shell.windows.get("core").unwrap().always_on_top);
}

#[test]
fn pref_awesome_opens_config_and_announces() {
    let mut shell = release_shell();
    let fx = shell.dispatch(CommandId::PrefAwesome);
    assert_eq!(
        fx,
        vec![
            Effect::CreateWindow {
                label: String::from("config"),
                source: ContentSource::App(String::from("index.html#/config")),
            },
            Effect::EmitAll {
                event: String::from("open-awesome"),
                payload: String::new(),
            },
        ]
    );
}

#[test]
fn pref_about_emits_its_event() {
    let mut shell = release_shell();
    assert_eq!(
        shell.dispatch(CommandId::PrefAbout),
        vec![Effect::EmitAll {
            event: String::from("open-about"),
            payload: String::new(),
        }]
    );
}

#[test]
fn notices_are_formatted_title_colon_body() {
    assert_eq!(
        notify_core("ChatGPT", "ready"),
        Effect::EmitAll {
            event: String::from("notice"),
            payload: String::from("ChatGPT: ready"),
        }
    );
}

#[test]
fn the_menu_table_is_fixed_and_gates_devtools_by_build() {
    let dev = build_menu(true);
    let release = build_menu(false);
    assert_eq!(dev.len(), 14);
    assert_eq!(release.len(), 14);
    for (d, r) in dev.iter().zip(release.iter()) {
        assert_eq!(d.id, r.id);
        if d.id == CommandId::ToggleDevtools {
            assert!(d.enabled);
            assert!(!r.enabled);
        } else {
            assert!(d.enabled);
            assert!(r.enabled);
        }
    }
    // Every identifier appears once: the table is a closed enumeration.
    for (i, a) in release.iter().enumerate() {
        for b in release.iter().skip(i + 1) {
            assert_ne!(a.id, b.id);
        }
    }
}
