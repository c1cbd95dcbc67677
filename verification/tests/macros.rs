use mkac::engine::command::MouseButton;
use mkac::engine::input::InputOp;
use mkac::engine::macros::{play_event, Macro, MacroEvent, MacroFrame, MACRO_SCHEMA};

#[test]
fn duration_is_saturating_and_recomputable() {
    let mut m = Macro::new(
        "test",
        vec![
            MacroFrame {
                delta_ms: u32::MAX,
                event: MacroEvent::MouseMove { x: 0, y: 0 },
            },
            MacroFrame {
                delta_ms: 10,
                event: MacroEvent::MouseDown {
                    button: MouseButton::Left,
                    x: 0,
                    y: 0,
                },
            },
        ],
    );
    assert_eq!(m.total_duration_ms, u32::MAX as u64 + 10);
    m.total_duration_ms = 0;
    m.recompute_duration();
    assert_eq!(m.total_duration_ms, u32::MAX as u64 + 10);
}

#[test]
fn new_macro_keeps_name_and_frames() {
    let frames = vec![
        MacroFrame { delta_ms: 0, event: MacroEvent::KeyDown { vk: 0x41 } },
        MacroFrame { delta_ms: 35, event: MacroEvent::KeyUp { vk: 0x41 } },
    ];
    let m = Macro::new("typing", frames.clone());
    assert_eq!(m.schema, MACRO_SCHEMA);
    assert_eq!(m.name, "typing");
    assert_eq!(m.frames, frames);
    assert_eq!(m.total_duration_ms, 35);
}

#[test]
fn empty_macro_lasts_nothing() {
    let m = Macro::new("", Vec::new());
    assert_eq!(m.total_duration_ms, 0);
}

#[test]
fn playing_events_moves_the_cursor_first() {
    assert_eq!(play_event(&MacroEvent::KeyDown { vk: 0x20 }), vec![InputOp::KeyDown { vk: 0x20 }]);
    assert_eq!(play_event(&MacroEvent::KeyUp { vk: 0x20 }), vec![InputOp::KeyUp { vk: 0x20 }]);
    assert_eq!(
        play_event(&MacroEvent::MouseDown { button: MouseButton::Right, x: 5, y: -7 }),
        vec![InputOp::SetCursor { x: 5, y: -7 }, InputOp::ButtonDown { button: MouseButton::Right }]
    );
    assert_eq!(
        play_event(&MacroEvent::MouseUp { button: MouseButton::Middle, x: 1, y: 2 }),
        vec![InputOp::SetCursor { x: 1, y: 2 }, InputOp::ButtonUp { button: MouseButton::Middle }]
    );
    assert_eq!(play_event(&MacroEvent::MouseMove { x: 9, y: 9 }), vec![InputOp::SetCursor { x: 9, y: 9 }]);
}
