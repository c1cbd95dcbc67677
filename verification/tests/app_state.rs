use std::sync::Arc;

use mkac::app::{
    apply_engine_event, build_action, build_macro_from_buffer, discard_pending, drain_recording,
    finish_delete_macro, finish_load_macro, finish_save_pending, finish_set_autostart, play,
    record_hotkey_action, refresh_action, set_close_to_tray, set_loops, set_record_hotkey,
    set_resizable_window, set_start_minimized, start_recording, startup_state, stop,
    stop_recording, toggle_theme, update_focus, AppEffect, AppState, Tab, RECORD_GRACE_NS,
};
use mkac::config::settings::Settings;
use mkac::engine::command::{
    Action, ClickPattern, Command, EngineEvent, HotkeyBinding, KeyMods, MouseButton, Target,
    TriggerMode,
};
use mkac::engine::macros::{Macro, MacroEvent, MacroFrame};
use mkac::hooks::hotkey::HotkeyState;
use mkac::hooks::recording::RecEvent;
use mkac::ui::panel_clicker::MouseConfig;
use mkac::ui::panel_keypress::KeyPressConfig;
use mkac::ui::panel_macros::{MacroAction, MacrosState};
use mkac::ui::panel_settings::SettingsState;
use mkac::ui::theme::Theme;

const MS: u64 = 1_000_000;

fn rec(at_ms: u64, vk: u16) -> RecEvent {
    RecEvent { at_ns: at_ms * MS, event: MacroEvent::KeyDown { vk } }
}

fn feedback(m: &MacrosState) -> (String, bool) {
    m.feedback.clone().unwrap()
}

#[test]
fn recording_keeps_gaps_and_drops_the_tail() {
    let buffer = vec![rec(1_000, 1), rec(1_000, 2), rec(1_250, 3), rec(1_250, 4), rec(1_900, 5), rec(1_960, 6)];
    let m = build_macro_from_buffer(&buffer, "r", 2_100 * MS);
    assert_eq!(m.name, "r");
    let deltas: Vec<u32> = m.frames.iter().map(|f| f.delta_ms).collect();
    assert_eq!(deltas, vec![0, 0, 250, 0, 650]);
    assert_eq!(m.total_duration_ms, 900);
    assert_eq!(m.frames[4].event, MacroEvent::KeyDown { vk: 5 });
}

#[test]
fn recording_rounds_gaps_down_and_caps_them() {
    let buffer = vec![
        RecEvent { at_ns: 0, event: MacroEvent::KeyDown { vk: 1 } },
        RecEvent { at_ns: 1_999_999, event: MacroEvent::KeyDown { vk: 2 } },
        RecEvent { at_ns: 1_000, event: MacroEvent::KeyDown { vk: 3 } },
        RecEvent { at_ns: 10_000_000_000_000_000, event: MacroEvent::KeyDown { vk: 4 } },
    ];
    let m = build_macro_from_buffer(&buffer, "", u64::MAX);
    let deltas: Vec<u32> = m.frames.iter().map(|f| f.delta_ms).collect();
    assert_eq!(deltas, vec![0, 1, 0, u32::MAX]);
}

#[test]
fn recording_inside_the_grace_period_is_empty() {
    let buffer = vec![rec(1_000, 1)];
    let m = build_macro_from_buffer(&buffer, "", RECORD_GRACE_NS + 999 * MS);
    assert!(m.frames.is_empty());
}

#[test]
fn build_action_follows_the_tab() {
    let mut st = AppState::default();
    st.mouse = MouseConfig { button: MouseButton::Right, pattern: ClickPattern::Double, use_fixed_point: true, fixed_x: 4, fixed_y: 5, mode: TriggerMode::Auto };
    assert_eq!(
        build_action(&st),
        Action::MouseClick { button: MouseButton::Right, pattern: ClickPattern::Double, target: Target::FixedPoint { x: 4, y: 5 }, mode: TriggerMode::Auto, repeat_while_toggled: false }
    );
    st.tab = Tab::Keyboard;
    assert_eq!(build_action(&st), Action::KeyTap { vk: 0x41, mods: KeyMods::default(), mode: TriggerMode::Auto });
    st.tab = Tab::Macros;
    assert_eq!(build_action(&st), Action::PlayMacro);
    st.tab = Tab::Settings;
    st.last_action = Action::PlayMacro;
    assert_eq!(build_action(&st), Action::PlayMacro);
    st.tab = Tab::Mouse;
    let c = refresh_action(&mut st);
    assert!(matches!(c, Command::SetAction(a) if a == st.last_action));
    assert!(matches!(st.last_action, Action::MouseClick { .. }));
}

#[test]
fn mouse_target_is_cursor_unless_fixed() {
    let mut c = MouseConfig::default();
    assert_eq!(c.target(), Target::Cursor);
    c.use_fixed_point = true;
    c.fixed_x = -3;
    assert_eq!(c.target(), Target::FixedPoint { x: -3, y: 0 });
    assert_eq!(KeyPressConfig::default().selected_vk, 0x41);
}

#[test]
fn record_start_and_stop() {
    let mut m = MacrosState::default();
    let mut buf = vec![rec(1, 1)];
    m.pending = Some(Macro::new("old", Vec::new()));
    m.feedback = Some(("x".to_string(), true));
    let fx = start_recording(&mut m, &mut buf, 5 * MS);
    assert_eq!(fx.len(), 3);
    assert!(matches!(fx[0], AppEffect::Send(Command::Stop)));
    assert!(matches!(fx[1], AppEffect::DiscardCaptured));
    assert!(matches!(fx[2], AppEffect::SetRecording(true)));
    assert!(buf.is_empty());
    assert!(m.recording && m.pending.is_none() && m.feedback.is_none());
    assert_eq!(m.record_started_at_ns, Some(5 * MS));
    drain_recording(&mut m, &mut buf, vec![rec(1_000, 7)]);
    assert_eq!(m.record_event_count, 1);
    stop_recording(&mut m, &mut buf, 2_000 * MS, vec![rec(1_500, 8), rec(1_990, 9)]);
    assert!(!m.recording);
    assert!(buf.is_empty());
    assert_eq!(m.record_event_count, 3);
    let p = m.pending.clone().unwrap();
    assert_eq!(p.name, "");
    assert_eq!(p.frames.len(), 2);
    assert_eq!(p.frames[1].delta_ms, 500);
    assert!(m.feedback.is_none());
}

#[test]
fn stopping_with_nothing_kept_says_so() {
    let mut m = MacrosState::default();
    let mut buf = Vec::new();
    start_recording(&mut m, &mut buf, 0);
    stop_recording(&mut m, &mut buf, 1_000 * MS, vec![rec(900, 1)]);
    assert!(m.pending.is_none());
    assert_eq!(feedback(&m), ("Nothing recorded".to_string(), false));
}

fn pending_state() -> MacrosState {
    let mut m = MacrosState::default();
    m.pending = Some(Macro::new(
        "",
        vec![
            MacroFrame { delta_ms: 0, event: MacroEvent::KeyDown { vk: 1 } },
            MacroFrame { delta_ms: 1500, event: MacroEvent::KeyUp { vk: 1 } },
        ],
    ));
    m.new_name = "typed".to_string();
    m
}

#[test]
fn saving_loads_the_recording() {
    let mut m = pending_state();
    let fx = finish_save_pending(&mut m, "clicks".to_string(), Ok(vec!["clicks".to_string()]));
    assert_eq!(fx.len(), 1);
    match &fx[0] {
        AppEffect::Send(Command::LoadMacro(mac)) => {
            assert_eq!(mac.name, "clicks");
            assert_eq!(mac.frames.len(), 2);
        }
        _ => panic!("expected a load"),
    }
    assert!(m.pending.is_none());
    assert_eq!(m.loaded.as_deref(), Some("clicks"));
    assert_eq!(m.loaded_event_count, 2);
    assert_eq!(m.loaded_duration_ms, 1500);
    assert_eq!(m.list, vec!["clicks".to_string()]);
    assert!(m.new_name.is_empty());
    assert_eq!(feedback(&m), ("Saved 'clicks' \u{b7} 2 events".to_string(), true));
}

#[test]
fn failed_save_keeps_the_recording() {
    let mut m = pending_state();
    let fx = finish_save_pending(&mut m, "n".to_string(), Err("disk full".to_string()));
    assert!(fx.is_empty());
    assert_eq!(m.pending.as_ref().unwrap().name, "n");
    assert_eq!(m.new_name, "typed");
    assert_eq!(feedback(&m), ("Save failed: disk full".to_string(), false));
    let mut none = MacrosState::default();
    assert!(finish_save_pending(&mut none, "n".to_string(), Ok(Vec::new())).is_empty());
    assert!(none.feedback.is_none());
}

#[test]
fn discarding_clears_the_recording() {
    let mut m = pending_state();
    discard_pending(&mut m);
    assert!(m.pending.is_none());
    assert!(m.new_name.is_empty());
    assert_eq!(feedback(&m), ("Recording discarded".to_string(), true));
}

#[test]
fn loading_and_deleting() {
    let mut m = MacrosState::default();
    let mac = Macro::new("a", vec![MacroFrame { delta_ms: 7, event: MacroEvent::KeyDown { vk: 1 } }]);
    let fx = finish_load_macro(&mut m, "a".to_string(), Ok(mac));
    assert_eq!(fx.len(), 1);
    assert_eq!(m.loaded.as_deref(), Some("a"));
    assert_eq!((m.loaded_event_count, m.loaded_duration_ms), (1, 7));
    assert_eq!(feedback(&m), ("Loaded 'a'".to_string(), true));
    let fx = finish_load_macro(&mut m, "b".to_string(), Err("bad json".to_string()));
    assert!(fx.is_empty());
    assert_eq!(m.loaded.as_deref(), Some("a"));
    assert_eq!(feedback(&m), ("Load failed: bad json".to_string(), false));
    let fx = finish_delete_macro(&mut m, "b".to_string(), Ok(vec!["a".to_string()]));
    assert!(fx.is_empty());
    assert_eq!(m.loaded.as_deref(), Some("a"));
    assert_eq!(feedback(&m), ("Deleted 'b'".to_string(), true));
    let fx = finish_delete_macro(&mut m, "a".to_string(), Ok(Vec::new()));
    assert!(matches!(fx[..], [AppEffect::Send(Command::ClearMacro)]));
    assert!(m.loaded.is_none());
    assert_eq!((m.loaded_event_count, m.loaded_duration_ms), (0, 0));
    assert!(m.list.is_empty());
    let fx = finish_delete_macro(&mut m, "a".to_string(), Err("denied".to_string()));
    assert!(fx.is_empty());
    assert_eq!(feedback(&m), ("Delete failed: denied".to_string(), false));
}

#[test]
fn playing_needs_a_loaded_macro() {
    let mut m = MacrosState::default();
    let mut last = Action::default();
    assert!(play(&mut m, &mut last).is_empty());
    assert_eq!(feedback(&m), ("No macro loaded \u{2014} record or load one first".to_string(), false));
    assert_eq!(last, Action::default());
    m.loaded = Some("a".to_string());
    m.loaded_event_count = 3;
    set_loops(&mut m, 4);
    let fx = play(&mut m, &mut last);
    assert_eq!(last, Action::PlayMacro);
    assert_eq!(fx.len(), 3);
    assert!(matches!(fx[0], AppEffect::Send(Command::SetAction(Action::PlayMacro))));
    assert!(matches!(fx[1], AppEffect::Send(Command::SetMacroLoops(4))));
    assert!(matches!(fx[2], AppEffect::Send(Command::Start)));
    assert!(matches!(stop()[..], [AppEffect::Send(Command::Stop)]));
}

#[test]
fn record_hotkey_rebind_updates_everything() {
    let mut m = MacrosState::default();
    let mut s = Settings::default();
    let mut hk = HotkeyState::new();
    let b = HotkeyBinding { vk: 0x78, ctrl: false, shift: true, alt: false, win: false };
    let fx = set_record_hotkey(&mut m, &mut s, &mut hk, b);
    assert!(matches!(fx[..], [AppEffect::SaveSettings]));
    assert_eq!(s.macro_record_hotkey, b);
    assert_eq!(hk.macro_record_binding, b.pack());
    assert_eq!(feedback(&m), ("Record hotkey set to Shift+F9".to_string(), true));
}

#[test]
fn record_hotkey_starts_stops_or_waits() {
    let mut m = MacrosState::default();
    assert!(matches!(record_hotkey_action(&m), Some(MacroAction::StartRecording)));
    m.recording = true;
    assert!(matches!(record_hotkey_action(&m), Some(MacroAction::StopRecording)));
    m.pending = Some(Macro::new("", Vec::new()));
    assert!(record_hotkey_action(&m).is_none());
}

#[test]
fn settings_actions() {
    let mut s = Settings::default();
    let mut p = SettingsState::default();
    let fx = finish_set_autostart(&mut s, &mut p, true, Ok(()));
    assert!(s.autostart && fx.len() == 1);
    assert_eq!(p.feedback.clone().unwrap(), ("Autostart enabled".to_string(), true));
    let fx = finish_set_autostart(&mut s, &mut p, false, Err("denied".to_string()));
    assert!(s.autostart && fx.is_empty());
    assert_eq!(p.feedback.clone().unwrap(), ("Autostart: denied".to_string(), false));
    finish_set_autostart(&mut s, &mut p, false, Ok(()));
    assert_eq!(p.feedback.clone().unwrap(), ("Autostart disabled".to_string(), true));
    set_close_to_tray(&mut s, true);
    set_start_minimized(&mut s, true);
    assert!(s.close_to_tray && s.start_minimized);
    set_resizable_window(&mut s, &mut p, true);
    assert!(s.resizable_window);
    assert_eq!(p.feedback.clone().unwrap(), ("Resize mode on".to_string(), true));
    set_resizable_window(&mut s, &mut p, false);
    assert_eq!(p.feedback.clone().unwrap(), ("Compact mode on".to_string(), true));
}

#[test]
fn focus_changes_cancel_captures() {
    let mut st = AppState::default();
    st.settings_panel.capturing_toggle = true;
    st.keypress.capturing_key = true;
    assert!(!update_focus(&mut st, true));
    assert!(!st.settings_panel.capturing_toggle && !st.keypress.capturing_key);
    st.macros.capturing_record_hotkey = true;
    assert!(update_focus(&mut st, true));
    assert!(st.macros.capturing_record_hotkey);
    assert!(!update_focus(&mut st, false));
    assert!(!st.macros.capturing_record_hotkey);
}

#[test]
fn engine_reports_update_the_state() {
    let mut st = AppState::default();
    apply_engine_event(&mut st, EngineEvent::Started);
    assert!(st.running);
    apply_engine_event(&mut st, EngineEvent::HeldChanged(vec![1, 2]));
    apply_engine_event(&mut st, EngineEvent::MouseHeldChanged(vec![MouseButton::Left]));
    assert_eq!(st.held_keys, vec![1, 2]);
    assert_eq!(st.held_mouse, vec![MouseButton::Left]);
    apply_engine_event(&mut st, EngineEvent::Stopped);
    assert!(!st.running);
}

#[test]
fn theme_toggles_back_and_forth() {
    let mut s = Settings::default();
    assert_eq!(toggle_theme(&mut s), Theme::Light);
    assert_eq!(s.theme, Theme::Light);
    assert_eq!(toggle_theme(&mut s), Theme::Dark);
}

#[test]
fn startup_configures_the_engine() {
    let mut s = Settings::default();
    s.interval_ms = 0;
    s.autostart = true;
    let (st, fx) = startup_state(s, vec!["m".to_string()], false);
    assert_eq!(st.rate.interval_ms, 1);
    assert!(!st.settings.autostart);
    assert_eq!(st.macros.list, vec!["m".to_string()]);
    assert_eq!(fx.len(), 4);
    assert!(matches!(fx[0], AppEffect::SaveSettings));
    assert!(matches!(fx[1], AppEffect::Send(Command::SetRate(r)) if r.interval_ms == 1));
    assert!(matches!(fx[3], AppEffect::Send(Command::SetAction(Action::MouseClick { .. }))));
    let (_, fx) = startup_state(Settings::default(), Vec::new(), false);
    assert_eq!(fx.len(), 3);
    let _ = Arc::new(0);
}

#[test]
fn tab_edits_send_the_action_only_when_it_changed() {
    let mut st = AppState::default();
    st.rate.interval_ms = 75;
    let before = st.mouse;
    assert!(mkac::app::finish_mouse_edit(&mut st, before).is_none());
    assert_eq!(st.settings.interval_ms, 75);
    st.mouse.button = MouseButton::Middle;
    let c = mkac::app::finish_mouse_edit(&mut st, before);
    assert!(matches!(c, Some(Command::SetAction(Action::MouseClick { button: MouseButton::Middle, .. }))));

    st.tab = Tab::Keyboard;
    let before = st.keypress;
    st.keypress.capturing_key = true;
    assert!(mkac::app::finish_keypress_edit(&mut st, before).is_none());
    st.keypress.selected_vk = 0x5A;
    let c = mkac::app::finish_keypress_edit(&mut st, before);
    assert!(matches!(c, Some(Command::SetAction(Action::KeyTap { vk: 0x5A, .. }))));
    assert!(matches!(st.last_action, Action::KeyTap { vk: 0x5A, .. }));
}
