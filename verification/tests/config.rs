use mkac::config::macros::{json_stem_of, macro_path, macros_dir};
use mkac::config::settings::{Settings, SETTINGS_SCHEMA, VK_F6, VK_F8};
use mkac::config::{config_dir, join_path, macro_file_name, sanitize_name, settings_path};
use mkac::engine::command::HotkeyBinding;
use mkac::ui::theme::Theme;

#[test]
fn sanitizes_windows_path_characters() {
    assert_eq!(sanitize_name(r#" ..\bad:name?.json "#), ".._bad_name_.json");
}

#[test]
fn removes_control_characters_and_outer_whitespace() {
    assert_eq!(sanitize_name("  hello\nworld  "), "hello_world");
}

#[test]
fn sanitize_replaces_every_forbidden_character() {
    assert_eq!(sanitize_name("a<b>c:d\"e/f\\g|h?i*j"), "a_b_c_d_e_f_g_h_i_j");
    assert_eq!(sanitize_name("tab\there\u{7f}\u{85}"), "tab_here__");
}

#[test]
fn sanitize_keeps_inner_spaces_and_unicode() {
    assert_eq!(sanitize_name("\u{3000} my macro \u{e9}t\u{e9} \u{2003}"), "my macro \u{e9}t\u{e9}");
    assert_eq!(sanitize_name("\u{3000} tab \t"), "tab _");
    assert_eq!(sanitize_name("   "), "");
    assert_eq!(sanitize_name(""), "");
}

#[test]
fn sanitize_is_idempotent_on_examples() {
    for s in [" ..\\bad:name?.json ", "  hello\nworld  ", " a\u{2003}", "x<y>"] {
        let once = sanitize_name(s);
        assert_eq!(sanitize_name(&once), once);
    }
}

#[test]
fn macro_file_name_appends_json() {
    assert_eq!(macro_file_name(" clicks? "), "clicks_.json");
    assert_eq!(macro_file_name(""), ".json");
}

#[test]
fn join_path_inserts_one_separator() {
    assert_eq!(join_path("C:\\Users\\me", "MKAC"), "C:\\Users\\me\\MKAC");
    assert_eq!(join_path("C:\\Users\\me\\", "MKAC"), "C:\\Users\\me\\MKAC");
    assert_eq!(join_path("C:/data/", "x"), "C:/data/x");
    assert_eq!(join_path("", "x"), "x");
}

#[test]
fn config_paths_follow_appdata() {
    let appdata = Some("C:\\Users\\me\\AppData\\Roaming");
    assert_eq!(
        config_dir(appdata).as_deref(),
        Some("C:\\Users\\me\\AppData\\Roaming\\MKAC\\MKAC\\config")
    );
    assert_eq!(
        settings_path(appdata).as_deref(),
        Some("C:\\Users\\me\\AppData\\Roaming\\MKAC\\MKAC\\config\\settings.json")
    );
    assert_eq!(
        macros_dir(appdata).as_deref(),
        Some("C:\\Users\\me\\AppData\\Roaming\\MKAC\\MKAC\\config\\macros")
    );
    assert_eq!(
        macro_path(appdata, " my:macro ").as_deref(),
        Some("C:\\Users\\me\\AppData\\Roaming\\MKAC\\MKAC\\config\\macros\\my_macro.json")
    );
}

#[test]
fn config_paths_need_appdata() {
    assert_eq!(config_dir(None), None);
    assert_eq!(settings_path(None), None);
    assert_eq!(macros_dir(None), None);
    assert_eq!(macro_path(None, "x"), None);
}

#[test]
fn default_settings_use_f6_and_f8() {
    let s = Settings::default();
    assert_eq!(s.schema, SETTINGS_SCHEMA);
    assert!(!s.autostart && !s.close_to_tray && !s.start_minimized && !s.resizable_window);
    assert_eq!(s.theme, Theme::Dark);
    assert_eq!(s.interval_ms, 100);
    assert_eq!(s.toggle_hotkey, HotkeyBinding::new(VK_F6));
    assert_eq!(s.macro_record_hotkey, HotkeyBinding::new(VK_F8));
}

#[test]
fn loading_restores_unbound_hotkeys() {
    let mut loaded = Settings::default();
    loaded.schema = 0;
    loaded.interval_ms = 250;
    loaded.close_to_tray = true;
    loaded.toggle_hotkey = HotkeyBinding::default();
    loaded.macro_record_hotkey = HotkeyBinding { vk: 0x41, ctrl: true, shift: false, alt: false, win: false };
    let s = Settings::load(Some(loaded));
    assert_eq!(s.schema, SETTINGS_SCHEMA);
    assert_eq!(s.interval_ms, 250);
    assert!(s.close_to_tray);
    assert_eq!(s.toggle_hotkey, HotkeyBinding::new(VK_F6));
    assert_eq!(s.macro_record_hotkey.vk, 0x41);
    assert!(s.macro_record_hotkey.ctrl);
}

#[test]
fn loading_nothing_gives_defaults() {
    let s = Settings::load(None);
    assert_eq!(s, Settings::default());
}

#[test]
fn macro_list_is_sorted_json_stems() {
    let names: Vec<String> = ["b.json", "a.json", "notes.txt", ".json", "x.JSON", "c.d.json", "dir", "B.json", "a"]
        .iter()
        .map(|s| s.to_string())
        .collect();
    assert_eq!(mkac::config::macros::list_macros(&names), vec!["B", "a", "b", "c.d"]);
    assert!(mkac::config::macros::list_macros(&Vec::new()).is_empty());
}

#[test]
fn json_stems_follow_extension_rules() {
    assert_eq!(json_stem_of("clicks.json").as_deref(), Some("clicks"));
    assert_eq!(json_stem_of("a..json").as_deref(), Some("a."));
    assert_eq!(json_stem_of(".json"), None);
    assert_eq!(json_stem_of(".."), None);
    assert_eq!(json_stem_of("json"), None);
    assert_eq!(json_stem_of("a.jsonx"), None);
    assert_eq!(json_stem_of("\u{e9}t\u{e9}.json").as_deref(), Some("\u{e9}t\u{e9}"));
}

#[test]
fn saved_names_come_back_in_the_list() {
    let files = vec![macro_file_name(" my:macro "), macro_file_name("zeta"), "other.txt".to_string()];
    assert_eq!(mkac::config::macros::list_macros(&files), vec!["my_macro", "zeta"]);
    assert!(mkac::config::macros::list_macros(&vec![macro_file_name("  ")]).is_empty());
}
