use vstd::prelude::*;

use super::command::MouseButton;
use super::input::InputOp;

verus! {

/// One recorded input event.
#[derive(Debug, Clone, Copy, PartialEq, Eq, Structural)]
pub enum MacroEvent {
    KeyDown { vk: u16 },
    KeyUp { vk: u16 },
    MouseDown { button: MouseButton, x: i32, y: i32 },
    MouseUp { button: MouseButton, x: i32, y: i32 },
    MouseMove { x: i32, y: i32 },
}

/// A recorded event and the delay since the previous one.
#[derive(Debug, Clone, Copy, PartialEq, Eq, Structural)]
pub struct MacroFrame {
    pub delta_ms: u32,
    pub event: MacroEvent,
}

/// A named recording.
#[derive(Debug, Clone)]
pub struct Macro {
    pub schema: u32,
    pub name: String,
    pub frames: Vec<MacroFrame>,
    pub total_duration_ms: u64,
}

/// Schema number written into new recordings.
pub const MACRO_SCHEMA: u32 = 1;

/// The sum of the frame delays, saturating at `u64::MAX` as it accumulates
/// from the first frame to the last.
pub open spec fn frames_duration(frames: Seq<MacroFrame>) -> nat
    decreases frames.len(),
{
    if frames.len() == 0 {
        0
    } else {
        let sum = frames_duration(frames.drop_last()) + frames.last().delta_ms;
        if sum > u64::MAX {
            u64::MAX as nat
        } else {
            sum as nat
        }
    }
}

/// Saturating total of the frame delays (see `frames_duration`).
fn total_duration(frames: &Vec<MacroFrame>) -> (total: u64)
    ensures
        total == frames_duration(frames@),
{
    let mut total: u64 = 0;
    let mut i: usize = 0;
    while i < frames.len()
        invariant
            i <= frames.len(),
            total == frames_duration(frames@.take(i as int)),
        decreases frames.len() - i,
    {
        assert(frames@.take(i + 1).drop_last() =~= frames@.take(i as int));
        total = total.saturating_add(frames[i].delta_ms as u64);
        i += 1;
    }
    assert(frames@.take(frames.len() as int) =~= frames@);
    total
}

impl Macro {
    /// A recording with the given name and frames, its total duration the
    /// saturating sum of the frame delays.
    pub fn new(name: &str, frames: Vec<MacroFrame>) -> (m: Self)
        ensures
            m.schema == MACRO_SCHEMA,
            m.name@ == name@,
            m.frames@ == frames@,
            m.total_duration_ms == frames_duration(frames@),
    {
        let total_duration_ms = total_duration(&frames);
        Macro { schema: MACRO_SCHEMA, name: String::from_str(name), frames, total_duration_ms }
    }

    /// Sets the total duration from the frames again.
    pub fn recompute_duration(&mut self)
        ensures
            final(self).total_duration_ms == frames_duration(old(self).frames@),
            final(self).frames == old(self).frames,
            final(self).name == old(self).name,
            final(self).schema == old(self).schema,
    {
        self.total_duration_ms = total_duration(&self.frames);
    }
}

/// The input operations that replay one recorded event: key events as they
/// are; mouse button events after moving the cursor to where they happened.
pub open spec fn event_ops(event: MacroEvent) -> Seq<InputOp> {
    match event {
        MacroEvent::KeyDown { vk } => seq![InputOp::KeyDown { vk }],
        MacroEvent::KeyUp { vk } => seq![InputOp::KeyUp { vk }],
        MacroEvent::MouseDown { button, x, y } => seq![
            InputOp::SetCursor { x, y },
            InputOp::ButtonDown { button },
        ],
        MacroEvent::MouseUp { button, x, y } => seq![
            InputOp::SetCursor { x, y },
            InputOp::ButtonUp { button },
        ],
        MacroEvent::MouseMove { x, y } => seq![InputOp::SetCursor { x, y }],
    }
}

/// The input operations that replay `event` (see `event_ops`).
pub fn play_event(event: &MacroEvent) -> (ops: Vec<InputOp>)
    ensures
        ops@ == event_ops(*event),
{
    match *event {
        MacroEvent::KeyDown { vk } => vec![InputOp::KeyDown { vk }],
        MacroEvent::KeyUp { vk } => vec![InputOp::KeyUp { vk }],
        MacroEvent::MouseDown { button, x, y } => vec![
            InputOp::SetCursor { x, y },
            InputOp::ButtonDown { button },
        ],
        MacroEvent::MouseUp { button, x, y } => vec![
            InputOp::SetCursor { x, y },
            InputOp::ButtonUp { button },
        ],
        MacroEvent::MouseMove { x, y } => vec![InputOp::SetCursor { x, y }],
    }
}

} // verus!
