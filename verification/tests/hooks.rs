use mkac::engine::command::{HotkeyBinding, MouseButton};
use mkac::engine::macros::MacroEvent;
use mkac::hooks::hotkey::{
    dispatch_macro_record, dispatch_toggle, hotkey_binding_to_mods, is_bound_vk, on_hotkey,
    registrations, set_macro_record_binding, set_rebind_active, set_toggle_binding,
    take_macro_record_requests, HotkeyDispatch, HotkeyState, Registration, HOTKEY_ID_RECORD,
    HOTKEY_ID_TOGGLE,
};
use mkac::hooks::recording::{
    key_hook_event, mouse_hook_event, push, set_recording, MoveThrottle, RecEvent, RecordingFlag,
    WM_KEYDOWN, WM_KEYUP, WM_LBUTTONDOWN, WM_MBUTTONUP, WM_MOUSEMOVE, WM_RBUTTONDOWN, WM_SYSKEYDOWN,
};

fn bound_state() -> HotkeyState {
    let mut st = HotkeyState::new();
    set_toggle_binding(&mut st, HotkeyBinding::new(0x75));
    set_macro_record_binding(
        &mut st,
        HotkeyBinding { vk: 0x77, ctrl: true, shift: false, alt: false, win: false },
    );
    st
}

#[test]
fn bindings_are_stored_packed() {
    let st = bound_state();
    assert_eq!(st.toggle_binding, 0x75);
    assert_eq!(st.macro_record_binding, 0x77 | 0x1_0000);
    assert!(is_bound_vk(&st, 0x75));
    assert!(is_bound_vk(&st, 0x77));
    assert!(!is_bound_vk(&st, 0x41));
    assert!(!is_bound_vk(&HotkeyState::new(), 0));
}

#[test]
fn registrations_follow_bindings_and_rebind() {
    let mut st = bound_state();
    assert_eq!(
        registrations(&st),
        vec![
            Registration { id: HOTKEY_ID_TOGGLE, mods: 0x4000, vk: 0x75 },
            Registration { id: HOTKEY_ID_RECORD, mods: 0x4002, vk: 0x77 },
        ]
    );
    assert!(set_rebind_active(&mut st, true));
    assert!(registrations(&st).is_empty());
    assert!(!set_rebind_active(&mut st, true));
    assert!(set_rebind_active(&mut st, false));
    set_toggle_binding(&mut st, HotkeyBinding::default());
    assert_eq!(registrations(&st).len(), 1);
}

#[test]
fn modifier_flags() {
    let b = HotkeyBinding { vk: 1, ctrl: true, shift: true, alt: true, win: true };
    assert_eq!(hotkey_binding_to_mods(&b), 0x4000 | 0x2 | 0x4 | 0x1 | 0x8);
    assert_eq!(hotkey_binding_to_mods(&HotkeyBinding::new(1)), 0x4000);
}

#[test]
fn hotkey_messages_dispatch_unless_rebinding() {
    let mut st = bound_state();
    assert_eq!(on_hotkey(&mut st, HOTKEY_ID_TOGGLE, false), HotkeyDispatch::Toggle);
    assert_eq!(on_hotkey(&mut st, HOTKEY_ID_TOGGLE, true), HotkeyDispatch::Toggle);
    assert_eq!(st.macro_record_requests, 0);
    assert_eq!(on_hotkey(&mut st, HOTKEY_ID_RECORD, false), HotkeyDispatch::Record);
    assert_eq!(st.macro_record_requests, 1);
    assert_eq!(on_hotkey(&mut st, HOTKEY_ID_RECORD, true), HotkeyDispatch::Ignored);
    assert_eq!(st.macro_record_requests, 1);
    assert_eq!(on_hotkey(&mut st, 7, false), HotkeyDispatch::Ignored);
    set_rebind_active(&mut st, true);
    assert_eq!(on_hotkey(&mut st, HOTKEY_ID_RECORD, false), HotkeyDispatch::Ignored);
    assert_eq!(on_hotkey(&mut st, HOTKEY_ID_TOGGLE, false), HotkeyDispatch::Ignored);
    assert_eq!(st.macro_record_requests, 1);
}

#[test]
fn record_requests_are_taken_once() {
    let mut st = HotkeyState::new();
    let mut seen = 0u32;
    dispatch_macro_record(&mut st);
    dispatch_macro_record(&mut st);
    dispatch_macro_record(&mut st);
    assert_eq!(take_macro_record_requests(&st, &mut seen), 3);
    assert_eq!(seen, 3);
    assert_eq!(take_macro_record_requests(&st, &mut seen), 0);
}

#[test]
fn record_requests_wrap() {
    let mut st = HotkeyState::new();
    st.macro_record_requests = u32::MAX;
    let mut seen = u32::MAX - 1;
    dispatch_macro_record(&mut st);
    dispatch_macro_record(&mut st);
    assert_eq!(st.macro_record_requests, 1);
    assert_eq!(take_macro_record_requests(&st, &mut seen), 3);
}

#[test]
fn dispatch_toggle_sends_to_the_channel() {
    assert!(matches!(dispatch_toggle(None), Err(mkac::engine::command::Command::Toggle)));
    let (tx, rx) = crossbeam_channel::bounded(1);
    assert!(dispatch_toggle(Some(&tx)).is_ok());
    assert!(matches!(dispatch_toggle(Some(&tx)), Err(mkac::engine::command::Command::Toggle)));
    assert!(matches!(rx.try_recv(), Ok(mkac::engine::command::Command::Toggle)));
}

#[test]
fn push_stamps_and_sends() {
    let ev = MacroEvent::KeyDown { vk: 0x41 };
    let back = push(None, 5, ev).unwrap_err();
    assert_eq!((back.at_ns, back.event), (5, ev));
    let (tx, rx) = crossbeam_channel::bounded::<RecEvent>(1);
    assert!(push(Some(&tx), 77, ev).is_ok());
    let refused = push(Some(&tx), 78, ev).unwrap_err();
    assert_eq!((refused.at_ns, refused.event), (78, ev));
    let got = rx.try_recv().unwrap();
    assert_eq!(got.at_ns, 77);
    assert_eq!(got.event, ev);
    let e = mkac::hooks::recording::rec_event(9, ev);
    assert_eq!((e.at_ns, e.event), (9, ev));
}

#[test]
fn keyboard_hook_records_only_while_recording() {
    let st = bound_state();
    let mut flag = RecordingFlag { on: false };
    assert_eq!(key_hook_event(&flag, &st, false, 0x41, WM_KEYDOWN), None);
    set_recording(&mut flag, true);
    assert_eq!(key_hook_event(&flag, &st, false, 0x41, WM_KEYDOWN), Some(MacroEvent::KeyDown { vk: 0x41 }));
    assert_eq!(key_hook_event(&flag, &st, false, 0x41, WM_SYSKEYDOWN), Some(MacroEvent::KeyDown { vk: 0x41 }));
    assert_eq!(key_hook_event(&flag, &st, false, 0x41, WM_KEYUP), Some(MacroEvent::KeyUp { vk: 0x41 }));
    assert_eq!(key_hook_event(&flag, &st, true, 0x41, WM_KEYDOWN), None);
    assert_eq!(key_hook_event(&flag, &st, false, 0x77, WM_KEYDOWN), None);
    assert_eq!(key_hook_event(&flag, &st, false, 0x41, 0x999), None);
}

#[test]
fn mouse_hook_maps_buttons_and_throttles_moves() {
    let flag = RecordingFlag { on: true };
    let mut t = MoveThrottle::new();
    assert_eq!(
        mouse_hook_event(&flag, &mut t, false, WM_LBUTTONDOWN, 3, 4, 0),
        Some(MacroEvent::MouseDown { button: MouseButton::Left, x: 3, y: 4 })
    );
    assert_eq!(
        mouse_hook_event(&flag, &mut t, false, WM_RBUTTONDOWN, 3, 4, 0),
        Some(MacroEvent::MouseDown { button: MouseButton::Right, x: 3, y: 4 })
    );
    assert_eq!(
        mouse_hook_event(&flag, &mut t, false, WM_MBUTTONUP, 0, 0, 0),
        Some(MacroEvent::MouseUp { button: MouseButton::Middle, x: 0, y: 0 })
    );
    assert_eq!(mouse_hook_event(&flag, &mut t, false, WM_MOUSEMOVE, 10, 10, 5), None);
    assert_eq!(mouse_hook_event(&flag, &mut t, false, WM_MOUSEMOVE, 10, 10, 10), Some(MacroEvent::MouseMove { x: 10, y: 10 }));
    assert_eq!(t.last_ms, 10);
    assert_eq!(mouse_hook_event(&flag, &mut t, false, WM_MOUSEMOVE, 10, 10, 50), None);
    assert_eq!(mouse_hook_event(&flag, &mut t, false, WM_MOUSEMOVE, 11, 10, 15), None);
    assert_eq!(mouse_hook_event(&flag, &mut t, false, WM_MOUSEMOVE, 11, 10, 20), Some(MacroEvent::MouseMove { x: 11, y: 10 }));
    assert_eq!(mouse_hook_event(&flag, &mut t, true, WM_LBUTTONDOWN, 0, 0, 0), None);
    let off = RecordingFlag { on: false };
    assert_eq!(mouse_hook_event(&off, &mut t, false, WM_LBUTTONDOWN, 0, 0, 0), None);
}
