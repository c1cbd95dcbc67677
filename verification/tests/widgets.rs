use mkac::autostart::{launch_command_for, to_wide, RunKeyChange};
use mkac::engine::command::{HotkeyBinding, StopAfter};
use mkac::text::push_decimal;
use mkac::ui::panel_rate::{select_stop_mode, stop_mode, StopMode};
use mkac::ui::theme::{current, set_current, Theme};
use mkac::ui::widgets::{
    captured_hotkey, captured_key, format_binding, next_theme, rebind_hotkey, rebind_key, KeyPress,
};
use mkac::util::keycodes::{is_extended, key_vk, lookup_name, CaptureKey};

fn press(vk: Option<u16>) -> KeyPress {
    KeyPress { fresh_press: true, escape: false, vk, ctrl: false, shift: false, alt: false }
}

#[test]
fn binding_labels() {
    assert_eq!(format_binding(&HotkeyBinding::default()), "\u{2014}");
    assert_eq!(format_binding(&HotkeyBinding::new(0x75)), "F6");
    let b = HotkeyBinding { vk: 0x41, ctrl: true, shift: true, alt: true, win: true };
    assert_eq!(format_binding(&b), "Ctrl+Shift+Alt+Win+A");
    assert_eq!(format_binding(&HotkeyBinding { vk: 0x07, ctrl: false, shift: false, alt: true, win: false }), "Alt+?");
}

#[test]
fn key_names() {
    assert_eq!(lookup_name(0x41), Some("A"));
    assert_eq!(lookup_name(0x39), Some("9"));
    assert_eq!(lookup_name(0x77), Some("F8"));
    assert_eq!(lookup_name(0x07), None);
    assert!(is_extended(0x25));
    assert!(is_extended(0xA5));
    assert!(!is_extended(0x41));
}

#[test]
fn themes() {
    assert_eq!(next_theme(Theme::Dark), Theme::Light);
    assert_eq!(next_theme(next_theme(Theme::Light)), Theme::Light);
    assert_eq!(current(set_current(Theme::Light)), Theme::Light);
    assert_eq!(current(set_current(Theme::Dark)), Theme::Dark);
    assert_eq!(current(7), Theme::Dark);
}

#[test]
fn hotkey_capture() {
    let ignored = KeyPress { fresh_press: false, ..press(Some(0x41)) };
    let unmapped = press(None);
    let ctrl_b = KeyPress { ctrl: true, ..press(Some(0x42)) };
    assert_eq!(
        captured_hotkey(&vec![ignored, unmapped, ctrl_b]),
        Some(HotkeyBinding { vk: 0x42, ctrl: true, shift: false, alt: false, win: false })
    );
    let esc = KeyPress { escape: true, ..press(Some(0x1B)) };
    assert_eq!(captured_hotkey(&vec![esc]), Some(HotkeyBinding::default()));
    let ctrl_esc = KeyPress { ctrl: true, ..esc };
    assert_eq!(captured_hotkey(&vec![ctrl_esc]).map(|b| b.vk), Some(0x1B));
    assert_eq!(captured_hotkey(&Vec::new()), None);

    let mut b = HotkeyBinding::new(0x75);
    let mut capturing = true;
    assert!(!rebind_hotkey(&mut b, &mut capturing, &vec![unmapped]));
    assert!(capturing);
    assert!(!rebind_hotkey(&mut b, &mut capturing, &vec![esc]));
    assert!(!capturing);
    assert_eq!(b, HotkeyBinding::new(0x75));
    assert!(!rebind_hotkey(&mut b, &mut capturing, &vec![ctrl_b]));
    capturing = true;
    assert!(rebind_hotkey(&mut b, &mut capturing, &vec![ctrl_b]));
    assert_eq!(b.vk, 0x42);
    assert!(!capturing);
}

#[test]
fn key_capture() {
    let esc = KeyPress { escape: true, ..press(None) };
    assert_eq!(captured_key(&vec![press(None), press(Some(0x44))]), Some(0x44));
    assert_eq!(captured_key(&vec![esc, press(Some(0x44))]), Some(0));
    let mut vk = 0x41;
    let mut capturing = true;
    assert!(!rebind_key(&mut vk, &mut capturing, &vec![esc]));
    assert_eq!(vk, 0x41);
    assert!(!capturing);
    capturing = true;
    assert!(!rebind_key(&mut vk, &mut capturing, &vec![press(Some(0x41))]));
    assert!(!capturing);
    capturing = true;
    assert!(rebind_key(&mut vk, &mut capturing, &vec![press(Some(0x5A))]));
    assert_eq!(vk, 0x5A);
}

#[test]
fn stop_mode_presets() {
    assert_eq!(stop_mode(&StopAfter::Count { n: 3 }), StopMode::Count);
    assert_eq!(select_stop_mode(StopAfter::Never, StopMode::Count), StopAfter::Count { n: 100 });
    assert_eq!(select_stop_mode(StopAfter::Never, StopMode::Duration), StopAfter::Duration { ms: 30_000 });
    assert_eq!(select_stop_mode(StopAfter::Count { n: 7 }, StopMode::Count), StopAfter::Count { n: 7 });
    assert_eq!(select_stop_mode(StopAfter::Count { n: 7 }, StopMode::Never), StopAfter::Never);
}

#[test]
fn decimal_numerals() {
    for (n, s) in [(0u64, "0"), (7, "7"), (10, "10"), (1234567, "1234567"), (u64::MAX, "18446744073709551615")] {
        let mut out = String::from("#");
        push_decimal(&mut out, n);
        assert_eq!(out, format!("#{s}"));
    }
}

#[test]
fn autostart_command_and_wide_text() {
    assert_eq!(launch_command_for("C:\\MKAC\\mkac.exe"), "\"C:\\MKAC\\mkac.exe\" --minimized");
    assert_eq!(to_wide("A\u{e9}\u{1F600}"), vec![0x41, 0xE9, 0xD83D, 0xDE00, 0]);
    assert_eq!(to_wide(""), vec![0]);
    match mkac::autostart::set(true, "x.exe") {
        RunKeyChange::SetValue(w) => {
            let expected: Vec<u16> = "\"x.exe\" --minimized".encode_utf16().chain(std::iter::once(0)).collect();
            assert_eq!(w, expected);
        }
        RunKeyChange::DeleteValue => panic!("expected a value"),
    }
    assert!(matches!(mkac::autostart::set(false, "x.exe"), RunKeyChange::DeleteValue));
}

#[test]
fn colorref_packs_red_low() {
    assert_eq!(mkac::ui::theme::colorref(0x07, 0x08, 0x0B), 0x000B_0807);
    assert_eq!(mkac::ui::theme::colorref(0xFF, 0, 0), 0xFF);
}

#[test]
fn capturable_keys_map_to_named_codes() {
    let cases = [
        (CaptureKey::A, 0x41, "A"),
        (CaptureKey::Z, 0x5A, "Z"),
        (CaptureKey::Num0, 0x30, "0"),
        (CaptureKey::F12, 0x7B, "F12"),
        (CaptureKey::ArrowLeft, 0x25, "Left"),
        (CaptureKey::PageDown, 0x22, "Page Down"),
        (CaptureKey::Escape, 0x1B, "Escape"),
        (CaptureKey::Backtick, 0xC0, "`"),
        (CaptureKey::Quote, 0xDE, "'"),
    ];
    for (k, vk, name) in cases {
        assert_eq!(key_vk(k), vk);
        assert_eq!(lookup_name(key_vk(k)), Some(name));
    }
}
