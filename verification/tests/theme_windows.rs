use chatgpt_shell::theme::Theme;
use chatgpt_shell::windows::{CloseOutcome, ContentSource, EnsureOutcome, WindowRegistry};

fn app_source(route: &str) -> ContentSource {
    ContentSource::App(String::from(route))
}

#[test]
fn toggle_is_an_involution_off_system() {
    assert_eq!(Theme::Light.toggled().toggled(), Theme::Light);
    assert_eq!(Theme::Dark.toggled().toggled(), Theme::Dark);
}

#[test]
fn toggle_resolves_system_to_dark_first() {
    assert_eq!(Theme::System.toggled(), Theme::Dark);
    assert_eq!(Theme::System.toggled().toggled(), Theme::Light);
}

#[test]
fn theme_names_round_trip() {
    assert_eq!(Theme::Light.name(), "light");
    assert_eq!(Theme::Dark.name(), "dark");
    assert_eq!(Theme::System.name(), "system");
    assert_eq!(Theme::of_name("light"), Theme::Light);
    assert_eq!(Theme::of_name("dark"), Theme::Dark);
    assert_eq!(Theme::of_name("system"), Theme::System);
}

#[test]
fn theme_of_name_ignores_ascii_case_and_defaults_to_system() {
    assert_eq!(Theme::of_name("DARK"), Theme::Dark);
    assert_eq!(Theme::of_name("Light"), Theme::Light);
    assert_eq!(Theme::of_name("purple"), Theme::System);
    assert_eq!(Theme::of_name(""), Theme::System);
    assert_eq!(Theme::of_name("darkk"), Theme::System);
}

#[test]
fn ensure_or_focus_twice_leaves_one_window() {
    let mut reg = WindowRegistry::new(true);
    let first = reg.ensure_or_focus("config", app_source("index.html#/config"));
    assert_eq!(first, EnsureOutcome::Created);
    let second = reg.ensure_or_focus("config", app_source("somewhere/else"));
    assert_eq!(second, EnsureOutcome::Focused);
    assert_eq!(reg.len(), 1);
    let w = reg.get("config").expect("window must be live");
    assert!(w.visible);
    assert!(w.focused);
    // The source of the first creation is kept; the second call's source
    // is ignored.
    assert_eq!(w.source, app_source("index.html#/config"));
}

#[test]
fn focus_moves_to_the_ensured_window() {
    let mut reg = WindowRegistry::new(true);
    reg.ensure_or_focus("core", app_source("index.html"));
    reg.ensure_or_focus("config", app_source("index.html#/config"));
    assert!(!reg.get("core").unwrap().focused);
    assert!(reg.get("config").unwrap().focused);
    reg.ensure_or_focus("core", app_source("ignored"));
    assert!(reg.get("core").unwrap().focused);
    assert!(!reg.get("config").unwrap().focused);
    assert_eq!(reg.len(), 2);
}

#[test]
fn get_is_lookup_only() {
    let reg = WindowRegistry::new(true);
    assert!(reg.get("core").is_none());
}

#[test]
fn closing_the_core_window_hides_it_when_the_policy_preserves_it() {
    let mut reg = WindowRegistry::new(true);
    reg.ensure_or_focus("core", app_source("index.html"));
    assert_eq!(reg.close("core"), CloseOutcome::Hidden);
    assert_eq!(reg.len(), 1);
    let w = reg.get("core").unwrap();
    assert!(!w.visible);
    assert!(!w.focused);
}

#[test]
fn closing_the_core_window_destroys_it_without_the_policy() {
    let mut reg = WindowRegistry::new(false);
    reg.ensure_or_focus("core", app_source("index.html"));
    assert_eq!(reg.close("core"), CloseOutcome::Destroyed);
    assert_eq!(reg.len(), 0);
    assert!(reg.get("core").is_none());
}

#[test]
fn closing_any_other_window_destroys_it() {
    let mut reg = WindowRegistry::new(true);
    reg.ensure_or_focus("config", app_source("index.html#/config"));
    assert_eq!(reg.close("config"), CloseOutcome::Destroyed);
    assert_eq!(reg.len(), 0);
}

#[test]
fn closing_an_absent_label_is_a_no_op() {
    let mut reg = WindowRegistry::new(true);
    assert_eq!(reg.close("config"), CloseOutcome::Absent);
    assert_eq!(reg.len(), 0);
}

#[test]
fn failed_creation_is_taken_back_out() {
    // The driver's protocol on OS-level window-creation failure: the entry
    // leaves the registry again and the caller sees an inert no-op.
    let mut reg = WindowRegistry::new(true);
    assert_eq!(
        reg.ensure_or_focus("config", app_source("index.html#/config")),
        EnsureOutcome::Created
    );
    assert_eq!(reg.close("config"), CloseOutcome::Destroyed);
    assert!(reg.get("config").is_none());
    // A later request simply tries again.
    assert_eq!(
        reg.ensure_or_focus("config", app_source("index.html#/config")),
        EnsureOutcome::Created
    );
}

#[test]
fn hide_keeps_the_window_live() {
    let mut reg = WindowRegistry::new(true);
    reg.ensure_or_focus("core", app_source("index.html"));
    assert!(reg.hide_window("core"));
    assert_eq!(reg.len(), 1);
    assert!(!reg.get("core").unwrap().visible);
    assert!(!reg.hide_window("absent"));
}

#[test]
fn show_focus_raises_a_hidden_window() {
    let mut reg = WindowRegistry::new(true);
    reg.ensure_or_focus("core", app_source("index.html"));
    reg.hide_window("core");
    assert!(reg.show_focus("core"));
    let w = reg.get("core").unwrap();
    assert!(w.visible);
    assert!(w.focused);
    assert!(!reg.show_focus("absent"));
}

#[test]
fn set_theme_all_reaches_every_window() {
    let mut reg = WindowRegistry::new(true);
    reg.ensure_or_focus("core", app_source("index.html"));
    reg.ensure_or_focus("config", app_source("index.html#/config"));
    reg.set_theme_all(Theme::Dark);
    assert_eq!(reg.get("core").unwrap().theme, Theme::Dark);
    assert_eq!(reg.get("config").unwrap().theme, Theme::Dark);
}

#[test]
fn toggle_on_top_flips_the_flag() {
    let mut reg = WindowRegistry::new(true);
    reg.ensure_or_focus("core", app_source("index.html"));
    assert_eq!(reg.toggle_on_top("core"), Some(true));
    assert!(reg.get("core").unwrap().always_on_top);
    assert_eq!(reg.toggle_on_top("core"), Some(false));
    assert!(!reg.get("core").unwrap().always_on_top);
    assert_eq!(reg.toggle_on_top("absent"), None);
}

#[test]
fn windows_can_be_walked_by_index() {
    let mut reg = WindowRegistry::new(true);
    reg.ensure_or_focus("core", app_source("index.html"));
    reg.ensure_or_focus("config", app_source("index.html#/config"));
    let mut labels = Vec::new();
    for i in 0..reg.len() {
        labels.push(reg.get_at(i).label.clone());
    }
    assert_eq!(labels, vec![String::from("core"), String::from("config")]);
}
