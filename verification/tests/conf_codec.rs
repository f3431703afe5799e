use chatgpt_shell::conf::ChatConfJson;
use chatgpt_shell::theme::Theme;
use chatgpt_shell::util::chat_root;

fn default_doc() -> ChatConfJson {
    ChatConfJson::default()
}

#[test]
fn fresh_install_yields_documented_defaults() {
    let (conf, must_write) = ChatConfJson::load(None);
    assert!(must_write);
    assert_eq!(conf.theme, Theme::System);
    assert!(conf.auto_update);
    assert!(conf.tray);
    assert!(!conf.popup_search);
    assert!(!conf.stay_on_top);
    assert_eq!(conf.default_origin, "https://chatgpt.com");
    assert_eq!(conf.origin, "https://chatgpt.com");
    assert_eq!(conf.ua_window, "");
    assert_eq!(conf.ua_tray, "");
    assert_eq!(conf.global_shortcut, "");
    assert!(!conf.titlebar);
    assert!(!conf.hide_dock_icon);
    // The flag tells the driver to write the document; what it writes is
    // read back as the same document.
    let text = conf.save();
    let (again, repaired) = ChatConfJson::load(Some(&text));
    assert!(!repaired);
    assert_eq!(again, conf);
}

#[test]
fn save_of_defaults_is_the_exact_canonical_text() {
    let text = default_doc().save();
    assert_eq!(
        text,
        "{\"theme\":\"system\",\"auto_update\":true,\"tray\":true,\
         \"popup_search\":false,\"stay_on_top\":false,\
         \"default_origin\":\"https://chatgpt.com\",\
         \"origin\":\"https://chatgpt.com\",\"ua_window\":\"\",\"ua_tray\":\"\",\
         \"global_shortcut\":\"\",\"titlebar\":false,\"hide_dock_icon\":false}"
    );
}

#[test]
fn save_then_load_round_trips_field_for_field() {
    let conf = ChatConfJson {
        theme: Theme::Dark,
        auto_update: false,
        tray: false,
        popup_search: true,
        stay_on_top: true,
        default_origin: String::from("https://example.net/a?b=c&d=e"),
        origin: String::from("https://example.net"),
        ua_window: String::from("Mozilla/5.0 (X11; Linux x86_64)"),
        ua_tray: String::from("tray-agent"),
        global_shortcut: String::from("Shift+Ctrl+G"),
        titlebar: true,
        hide_dock_icon: true,
    };
    let text = conf.save();
    let (back, repaired) = ChatConfJson::load(Some(&text));
    assert!(!repaired);
    assert_eq!(back, conf);
}

#[test]
fn round_trip_survives_quotes_backslashes_and_control_characters() {
    let conf = ChatConfJson {
        ua_window: String::from("he said \"hi\" \\ bye"),
        ua_tray: String::from("line1\nline2\ttabbed\rreturned"),
        global_shortcut: String::from("päivää … ’quote’"),
        ..ChatConfJson::default()
    };
    let text = conf.save();
    let (back, repaired) = ChatConfJson::load(Some(&text));
    assert!(!repaired);
    assert_eq!(back, conf);
}

#[test]
fn empty_file_is_repaired_to_defaults() {
    let (conf, must_write) = ChatConfJson::load(Some(""));
    assert!(must_write);
    assert_eq!(conf, default_doc());
}

#[test]
fn truncated_file_is_repaired_to_defaults() {
    let (conf, must_write) = ChatConfJson::load(Some("{\"theme\": \"dar"));
    assert!(must_write);
    assert_eq!(conf, default_doc());
}

#[test]
fn junk_file_is_repaired_to_defaults() {
    let (conf, must_write) = ChatConfJson::load(Some("not json at all"));
    assert!(must_write);
    assert_eq!(conf, default_doc());
}

#[test]
fn trailing_junk_is_repaired_to_defaults() {
    let (conf, must_write) = ChatConfJson::load(Some("{\"tray\":false} extra"));
    assert!(must_write);
    assert_eq!(conf, default_doc());
}

#[test]
fn empty_object_loads_as_defaults_without_repair() {
    let (conf, must_write) = ChatConfJson::load(Some("{}"));
    assert!(!must_write);
    assert_eq!(conf, default_doc());
}

#[test]
fn unknown_extra_members_are_skipped() {
    let text = "{\"theme\":\"dark\",\
                \"mystery\":{\"a\":[1,2,\"x\"],\"b\":null},\
                \"later\":[true,{\"deep\":\"\\\"quoted\\\"\"}],\
                \"tray\":false}";
    let (conf, must_write) = ChatConfJson::load(Some(text));
    assert!(!must_write);
    assert_eq!(conf.theme, Theme::Dark);
    assert!(!conf.tray);
    assert!(conf.auto_update);
    assert_eq!(conf.origin, "https://chatgpt.com");
}

#[test]
fn wrongly_typed_members_fall_back_to_their_defaults() {
    let text = "{\"theme\":5,\"auto_update\":\"yes\",\"origin\":\"https://kept.example\"}";
    let (conf, must_write) = ChatConfJson::load(Some(text));
    assert!(!must_write);
    assert_eq!(conf.theme, Theme::System);
    assert!(conf.auto_update);
    assert_eq!(conf.origin, "https://kept.example");
}

#[test]
fn missing_members_keep_their_defaults() {
    let (conf, must_write) = ChatConfJson::load(Some("{\"titlebar\":true}"));
    assert!(!must_write);
    assert!(conf.titlebar);
    assert_eq!(conf.theme, Theme::System);
    assert_eq!(conf.default_origin, "https://chatgpt.com");
}

#[test]
fn unknown_theme_name_resolves_to_system() {
    let (conf, must_write) = ChatConfJson::load(Some("{\"theme\":\"purple\"}"));
    assert!(!must_write);
    assert_eq!(conf.theme, Theme::System);
}

#[test]
fn repeated_member_takes_the_last_value() {
    let (conf, must_write) = ChatConfJson::load(Some("{\"theme\":\"dark\",\"theme\":\"light\"}"));
    assert!(!must_write);
    assert_eq!(conf.theme, Theme::Light);
}

#[test]
fn whitespace_around_members_is_tolerated() {
    let text = "  {\n  \"tray\" :\tfalse ,\r\n \"theme\" : \"light\" }\n";
    let (conf, must_write) = ChatConfJson::load(Some(text));
    assert!(!must_write);
    assert!(!conf.tray);
    assert_eq!(conf.theme, Theme::Light);
}

#[test]
fn string_escapes_are_decoded() {
    let text = "{\"ua_window\":\"a\\\"b\\\\c\\nd\\te\\r\\/\\b\\f\"}";
    let (conf, must_write) = ChatConfJson::load(Some(text));
    assert!(!must_write);
    assert_eq!(conf.ua_window, "a\"b\\c\nd\te\r/\u{8}\u{c}");
}

#[test]
fn unknown_escape_makes_the_file_unreadable() {
    let (conf, must_write) = ChatConfJson::load(Some("{\"ua_window\":\"a\\qb\"}"));
    assert!(must_write);
    assert_eq!(conf, default_doc());
}

#[test]
fn reset_to_defaults_returns_the_default_document() {
    assert_eq!(ChatConfJson::reset_to_defaults(), default_doc());
}

#[test]
fn paths_follow_the_home_directory() {
    assert_eq!(chat_root("/home/u"), "/home/u/.chatgpt");
    assert_eq!(
        ChatConfJson::conf_path("/home/u"),
        "/home/u/.chatgpt/chat.conf.json"
    );
}
