use vstd::prelude::*;

use crossbeam_channel::Sender;

use crate::engine::command::MouseButton;
use crate::engine::input::InputOp;
use crate::engine::macros::{event_ops, MacroEvent};
use crate::hooks::channel::try_send;
use crate::hooks::hotkey::{binds_vk, is_bound_vk, HotkeyState};

verus! {

/// A captured input event with the time it was seen, in nanoseconds on the
/// driver's monotonic clock.
#[derive(Debug, Clone, Copy)]
pub struct RecEvent {
    pub at_ns: u64,
    pub event: MacroEvent,
}

/// Whether the hooks currently capture events for a macro.
#[derive(Debug, Clone, Copy)]
pub struct RecordingFlag {
    pub on: bool,
}

/// Turns capturing on or off.
pub fn set_recording(flag: &mut RecordingFlag, on: bool)
    ensures
        final(flag).on == on,
{
    flag.on = on;
}

/// A captured event stamped with the time it was seen.
pub fn rec_event(at_ns: u64, event: MacroEvent) -> (e: RecEvent)
    ensures
        e == (RecEvent { at_ns, event }),
{
    RecEvent { at_ns, event }
}

/// Hands the event stamped with `at_ns` (see `rec_event`) to the recording
/// channel when one is installed, without blocking. When it is not taken
/// (no channel, or the channel refuses it), that stamped event comes back.
pub fn push(tx: Option<&Sender<RecEvent>>, at_ns: u64, event: MacroEvent) -> (r: Result<(), RecEvent>)
    ensures
        tx is None ==> r == Err::<(), RecEvent>(RecEvent { at_ns, event }),
        r matches Err(e) ==> e == (RecEvent { at_ns, event }),
{
    let e = rec_event(at_ns, event);
    match tx {
        Some(t) => try_send(t, e),
        None => Err(e),
    }
}

/// Window messages the keyboard hook sees.
pub const WM_KEYDOWN: u32 = 0x0100;
pub const WM_KEYUP: u32 = 0x0101;
pub const WM_SYSKEYDOWN: u32 = 0x0104;
pub const WM_SYSKEYUP: u32 = 0x0105;

/// Window messages the mouse hook sees.
pub const WM_MOUSEMOVE: u32 = 0x0200;
pub const WM_LBUTTONDOWN: u32 = 0x0201;
pub const WM_LBUTTONUP: u32 = 0x0202;
pub const WM_RBUTTONDOWN: u32 = 0x0204;
pub const WM_RBUTTONUP: u32 = 0x0205;
pub const WM_MBUTTONDOWN: u32 = 0x0207;
pub const WM_MBUTTONUP: u32 = 0x0208;

/// Least time between two recorded pointer moves (about 100 per second).
pub const MOVE_THROTTLE_MS: u64 = 10;

/// What a keyboard hook callback records: nothing for injected input, while
/// not recording, or for a key that a hotkey uses (so the record hotkey is not
/// captured itself); else a key-down or key-up for the matching messages.
pub open spec fn key_event_of(recording: bool, st: HotkeyState, injected: bool, vk: u16, msg: u32) -> Option<
    MacroEvent,
> {
    if injected || !recording || binds_vk(st.toggle_binding, vk) || binds_vk(
        st.macro_record_binding,
        vk,
    ) {
        None
    } else if msg == WM_KEYDOWN || msg == WM_SYSKEYDOWN {
        Some(MacroEvent::KeyDown { vk })
    } else if msg == WM_KEYUP || msg == WM_SYSKEYUP {
        Some(MacroEvent::KeyUp { vk })
    } else {
        None
    }
}

/// While recording, a key message that is not injected and is not one of
/// the bound hotkeys is recorded as the event of that same key: a down
/// message (`WM_KEYDOWN`, `WM_SYSKEYDOWN`) as its `KeyDown`, an up message
/// (`WM_KEYUP`, `WM_SYSKEYUP`) as its `KeyUp`; no key event is ever recorded
/// for another key.
pub proof fn lemma_key_messages_keep_their_key(
    recording: bool,
    st: HotkeyState,
    injected: bool,
    vk: u16,
    msg: u32,
)
    ensures
        recording && !injected && !binds_vk(st.toggle_binding, vk) && !binds_vk(
            st.macro_record_binding,
            vk,
        ) ==> ((msg == WM_KEYDOWN || msg == WM_SYSKEYDOWN) <==> key_event_of(
            recording,
            st,
            injected,
            vk,
            msg,
        ) == Some(MacroEvent::KeyDown { vk })),
        recording && !injected && !binds_vk(st.toggle_binding, vk) && !binds_vk(
            st.macro_record_binding,
            vk,
        ) ==> ((msg == WM_KEYUP || msg == WM_SYSKEYUP) <==> key_event_of(
            recording,
            st,
            injected,
            vk,
            msg,
        ) == Some(MacroEvent::KeyUp { vk })),
        key_event_of(recording, st, injected, vk, msg) matches Some(e) ==> e == (MacroEvent::KeyDown {
            vk,
        }) || e == (MacroEvent::KeyUp { vk }),
        !recording || injected ==> key_event_of(recording, st, injected, vk, msg) is None,
{
}

/// The event a keyboard hook callback records, if any (see `key_event_of`).
pub fn key_hook_event(flag: &RecordingFlag, st: &HotkeyState, injected: bool, vk: u16, msg: u32) -> (r:
    Option<MacroEvent>)
    ensures
        r == key_event_of(flag.on, *st, injected, vk, msg),
{
    if injected || !flag.on || is_bound_vk(st, vk) {
        return None;
    }
    if msg == WM_KEYDOWN || msg == WM_SYSKEYDOWN {
        Some(MacroEvent::KeyDown { vk })
    } else if msg == WM_KEYUP || msg == WM_SYSKEYUP {
        Some(MacroEvent::KeyUp { vk })
    } else {
        None
    }
}

/// The last pointer move that was recorded: when (milliseconds on the hook's
/// clock) and where.
#[derive(Debug, Clone, Copy)]
pub struct MoveThrottle {
    pub last_ms: u64,
    pub last_x: i32,
    pub last_y: i32,
}

impl MoveThrottle {
    /// Before any move: time 0 at a position no pointer reports.
    pub fn new() -> (r: Self)
        ensures
            r.last_ms == 0,
            r.last_x == i32::MIN,
            r.last_y == i32::MIN,
    {
        MoveThrottle { last_ms: 0, last_x: i32::MIN, last_y: i32::MIN }
    }
}

/// Whether a move to `(x, y)` at `now_ms` is recorded: it must go somewhere
/// new and come at least `MOVE_THROTTLE_MS` after the last recorded one.
pub open spec fn move_accepted(t: MoveThrottle, now_ms: u64, x: i32, y: i32) -> bool {
    !(t.last_x == x && t.last_y == y) && (if now_ms >= t.last_ms {
        now_ms - t.last_ms
    } else {
        0
    }) >= MOVE_THROTTLE_MS
}

/// The button event a mouse message stands for, if it is a button message.
pub open spec fn button_event_of(msg: u32, x: i32, y: i32) -> Option<MacroEvent> {
    if msg == WM_LBUTTONDOWN {
        Some(MacroEvent::MouseDown { button: MouseButton::Left, x, y })
    } else if msg == WM_LBUTTONUP {
        Some(MacroEvent::MouseUp { button: MouseButton::Left, x, y })
    } else if msg == WM_RBUTTONDOWN {
        Some(MacroEvent::MouseDown { button: MouseButton::Right, x, y })
    } else if msg == WM_RBUTTONUP {
        Some(MacroEvent::MouseUp { button: MouseButton::Right, x, y })
    } else if msg == WM_MBUTTONDOWN {
        Some(MacroEvent::MouseDown { button: MouseButton::Middle, x, y })
    } else if msg == WM_MBUTTONUP {
        Some(MacroEvent::MouseUp { button: MouseButton::Middle, x, y })
    } else {
        None
    }
}

/// Each button message is recorded as the event of the button it names, in
/// its direction, at the message's position: a button-down message gives a
/// `MouseDown` of that button and a button-up message a `MouseUp` of it; no
/// other message gives a button event, and a button event always carries
/// the message's position.
pub proof fn lemma_button_messages_keep_their_button(msg: u32, x: i32, y: i32)
    ensures
        msg == WM_LBUTTONDOWN <==> button_event_of(msg, x, y) == Some(
            MacroEvent::MouseDown { button: MouseButton::Left, x, y },
        ),
        msg == WM_LBUTTONUP <==> button_event_of(msg, x, y) == Some(
            MacroEvent::MouseUp { button: MouseButton::Left, x, y },
        ),
        msg == WM_RBUTTONDOWN <==> button_event_of(msg, x, y) == Some(
            MacroEvent::MouseDown { button: MouseButton::Right, x, y },
        ),
        msg == WM_RBUTTONUP <==> button_event_of(msg, x, y) == Some(
            MacroEvent::MouseUp { button: MouseButton::Right, x, y },
        ),
        msg == WM_MBUTTONDOWN <==> button_event_of(msg, x, y) == Some(
            MacroEvent::MouseDown { button: MouseButton::Middle, x, y },
        ),
        msg == WM_MBUTTONUP <==> button_event_of(msg, x, y) == Some(
            MacroEvent::MouseUp { button: MouseButton::Middle, x, y },
        ),
        button_event_of(msg, x, y) matches Some(e) ==> (e matches MacroEvent::MouseDown { x: ex, y: ey, .. } && ex == x && ey == y)
            || (e matches MacroEvent::MouseUp { x: ex, y: ey, .. } && ex == x && ey == y),
{
}

/// A recorded button message replays as that same button, in the same
/// direction, at the recorded position: the cursor is moved to where the
/// message happened and then the button the message names goes down (for a
/// down message) or up (for an up message).
pub proof fn lemma_recorded_button_replays_the_same_button(msg: u32, x: i32, y: i32)
    ensures
        msg == WM_LBUTTONDOWN ==> (button_event_of(msg, x, y) matches Some(e) && event_ops(e) == seq![
            InputOp::SetCursor { x, y },
            InputOp::ButtonDown { button: MouseButton::Left },
        ]),
        msg == WM_LBUTTONUP ==> (button_event_of(msg, x, y) matches Some(e) && event_ops(e) == seq![
            InputOp::SetCursor { x, y },
            InputOp::ButtonUp { button: MouseButton::Left },
        ]),
        msg == WM_RBUTTONDOWN ==> (button_event_of(msg, x, y) matches Some(e) && event_ops(e) == seq![
            InputOp::SetCursor { x, y },
            InputOp::ButtonDown { button: MouseButton::Right },
        ]),
        msg == WM_RBUTTONUP ==> (button_event_of(msg, x, y) matches Some(e) && event_ops(e) == seq![
            InputOp::SetCursor { x, y },
            InputOp::ButtonUp { button: MouseButton::Right },
        ]),
        msg == WM_MBUTTONDOWN ==> (button_event_of(msg, x, y) matches Some(e) && event_ops(e) == seq![
            InputOp::SetCursor { x, y },
            InputOp::ButtonDown { button: MouseButton::Middle },
        ]),
        msg == WM_MBUTTONUP ==> (button_event_of(msg, x, y) matches Some(e) && event_ops(e) == seq![
            InputOp::SetCursor { x, y },
            InputOp::ButtonUp { button: MouseButton::Middle },
        ]),
{
}

/// The event a mouse hook callback records, if any: nothing while not
/// recording or for injected input; a button event for a button message; a
/// move when `move_accepted`, which then becomes the last recorded move.
pub fn mouse_hook_event(
    flag: &RecordingFlag,
    throttle: &mut MoveThrottle,
    injected: bool,
    msg: u32,
    x: i32,
    y: i32,
    now_ms: u64,
) -> (r: Option<MacroEvent>)
    ensures
        ({
            let active = flag.on && !injected;
            let moved = active && msg == WM_MOUSEMOVE && move_accepted(*old(throttle), now_ms, x, y);
            &&& r == (if !active {
                None
            } else if msg == WM_MOUSEMOVE {
                if moved {
                    Some(MacroEvent::MouseMove { x, y })
                } else {
                    None
                }
            } else {
                button_event_of(msg, x, y)
            })
            &&& active && msg == WM_LBUTTONDOWN ==> r == Some(MacroEvent::MouseDown { button: MouseButton::Left, x, y })
            &&& active && msg == WM_LBUTTONUP ==> r == Some(MacroEvent::MouseUp { button: MouseButton::Left, x, y })
            &&& active && msg == WM_RBUTTONDOWN ==> r == Some(MacroEvent::MouseDown { button: MouseButton::Right, x, y })
            &&& active && msg == WM_RBUTTONUP ==> r == Some(MacroEvent::MouseUp { button: MouseButton::Right, x, y })
            &&& active && msg == WM_MBUTTONDOWN ==> r == Some(MacroEvent::MouseDown { button: MouseButton::Middle, x, y })
            &&& active && msg == WM_MBUTTONUP ==> r == Some(MacroEvent::MouseUp { button: MouseButton::Middle, x, y })
            &&& *final(throttle) == (if moved {
                MoveThrottle { last_ms: now_ms, last_x: x, last_y: y }
            } else {
                *old(throttle)
            })
        }),
{
    if !flag.on || injected {
        return None;
    }
    if msg == WM_LBUTTONDOWN {
        Some(MacroEvent::MouseDown { button: MouseButton::Left, x, y })
    } else if msg == WM_LBUTTONUP {
        Some(MacroEvent::MouseUp { button: MouseButton::Left, x, y })
    } else if msg == WM_RBUTTONDOWN {
        Some(MacroEvent::MouseDown { button: MouseButton::Right, x, y })
    } else if msg == WM_RBUTTONUP {
        Some(MacroEvent::MouseUp { button: MouseButton::Right, x, y })
    } else if msg == WM_MBUTTONDOWN {
        Some(MacroEvent::MouseDown { button: MouseButton::Middle, x, y })
    } else if msg == WM_MBUTTONUP {
        Some(MacroEvent::MouseUp { button: MouseButton::Middle, x, y })
    } else if msg == WM_MOUSEMOVE {
        let dup = throttle.last_x == x && throttle.last_y == y;
        if !dup && now_ms.saturating_sub(throttle.last_ms) >= MOVE_THROTTLE_MS {
            throttle.last_ms = now_ms;
            throttle.last_x = x;
            throttle.last_y = y;
            Some(MacroEvent::MouseMove { x, y })
        } else {
            None
        }
    } else {
        None
    }
}

} // verus!
