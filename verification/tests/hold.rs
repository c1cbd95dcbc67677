use mkac::engine::command::{KeyMods, MouseButton};
use mkac::engine::input::InputOp;
use mkac::engine::virtual_hold::{byte_to_mb, mb_to_byte, VirtualHold};

#[test]
fn combo_presses_modifiers_first_and_releases_in_reverse() {
    let mut h = VirtualHold::new();
    let mut out = Vec::new();
    let mods = KeyMods { ctrl: true, shift: false, alt: true, win: false };
    assert!(h.toggle_combo(0x41, mods, &mut out));
    assert_eq!(out, vec![InputOp::KeyDown { vk: 0x11 }, InputOp::KeyDown { vk: 0x12 }, InputOp::KeyDown { vk: 0x41 }]);
    assert_eq!(h.held_keys(), vec![0x11, 0x12, 0x41]);
    out.clear();
    assert!(!h.toggle_combo(0x41, mods, &mut out));
    assert_eq!(out, vec![InputOp::KeyUp { vk: 0x41 }, InputOp::KeyUp { vk: 0x12 }, InputOp::KeyUp { vk: 0x11 }]);
    assert!(h.held_keys().is_empty());
}

#[test]
fn combo_shares_already_held_keys() {
    let mut h = VirtualHold::new();
    let mut out = Vec::new();
    let ctrl = KeyMods { ctrl: true, shift: false, alt: false, win: false };
    h.toggle_combo(0x41, ctrl, &mut out);
    out.clear();
    assert!(h.toggle_combo(0x42, ctrl, &mut out));
    assert_eq!(out, vec![InputOp::KeyDown { vk: 0x42 }]);
    out.clear();
    assert!(!h.toggle_combo(0x42, ctrl, &mut out));
    assert_eq!(out, vec![InputOp::KeyUp { vk: 0x42 }, InputOp::KeyUp { vk: 0x11 }]);
    assert_eq!(h.held_keys(), vec![0x41]);
}

#[test]
fn modifier_as_main_key_is_pressed_once() {
    let mut h = VirtualHold::new();
    let mut out = Vec::new();
    let ctrl = KeyMods { ctrl: true, shift: false, alt: false, win: false };
    assert!(h.toggle_combo(0x11, ctrl, &mut out));
    assert_eq!(out, vec![InputOp::KeyDown { vk: 0x11 }]);
}

#[test]
fn mouse_latch_round_trip() {
    let mut h = VirtualHold::new();
    let mut out = Vec::new();
    assert!(h.toggle_mouse(MouseButton::Middle, &mut out));
    assert!(h.toggle_mouse(MouseButton::Left, &mut out));
    assert_eq!(h.held_mouse_buttons(), vec![MouseButton::Left, MouseButton::Middle]);
    h.record_mouse_target(MouseButton::Middle, 99);
    out.clear();
    assert!(!h.toggle_mouse(MouseButton::Middle, &mut out));
    assert_eq!(out, vec![InputOp::HoldButtonUp { button: MouseButton::Middle, target: 99 }]);
    assert_eq!(h.held_mouse_buttons(), vec![MouseButton::Left]);
}

#[test]
fn release_all_lets_go_of_everything() {
    let mut h = VirtualHold::new();
    let mut out = Vec::new();
    h.toggle_combo(0x20, KeyMods::default(), &mut out);
    h.toggle_mouse(MouseButton::Right, &mut out);
    out.clear();
    h.release_all(&mut out);
    assert_eq!(out, vec![InputOp::KeyUp { vk: 0x20 }, InputOp::HoldButtonUp { button: MouseButton::Right, target: 0 }]);
    assert!(h.held_keys().is_empty());
    assert!(h.held_mouse_buttons().is_empty());
}

#[test]
fn button_bytes() {
    assert_eq!(mb_to_byte(MouseButton::Left), 1);
    assert_eq!(mb_to_byte(MouseButton::Right), 2);
    assert_eq!(mb_to_byte(MouseButton::Middle), 3);
    assert_eq!(byte_to_mb(2), MouseButton::Right);
    assert_eq!(byte_to_mb(3), MouseButton::Middle);
    assert_eq!(byte_to_mb(0), MouseButton::Left);
}
