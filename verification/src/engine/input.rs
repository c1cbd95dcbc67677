use vstd::prelude::*;

use super::command::{ClickPattern, KeyMods, MouseButton, Target};

verus! {

/// One piece of outside input work that a decision of the engine asks the
/// driver to perform, in order.
#[derive(Debug, Clone, Copy, PartialEq, Eq, Structural)]
pub enum InputOp {
    KeyDown { vk: u16 },
    KeyUp { vk: u16 },
    SetCursor { x: i32, y: i32 },
    ButtonDown { button: MouseButton },
    ButtonUp { button: MouseButton },
    /// Move to the target (when fixed), then send the click pattern, each
    /// press held for `hold_ms` (0: batched without a pause).
    Click { button: MouseButton, pattern: ClickPattern, target: Target, hold_ms: u32 },
    /// Press the modifiers and the key, hold for `hold_ms`, release in reverse.
    KeyTap { vk: u16, mods: KeyMods, hold_ms: u32 },
    /// Latch a mouse button on the foreground window. The driver reports the
    /// window it went to back to the engine (0 when it fell back to plain input).
    HoldButtonDown { button: MouseButton },
    /// Release a latched mouse button on the window it went to (0: plain input).
    HoldButtonUp { button: MouseButton, target: isize },
}

pub const VK_SHIFT: u16 = 0x10;

pub const VK_CONTROL: u16 = 0x11;

pub const VK_MENU: u16 = 0x12;

pub const VK_LWIN: u16 = 0x5B;

/// Number of clicks sent by one event of the pattern.
pub open spec fn pattern_count(p: ClickPattern) -> nat {
    match p {
        ClickPattern::Single => 1,
        ClickPattern::Double => 2,
        ClickPattern::Triple => 3,
    }
}

pub fn click_count(pattern: ClickPattern) -> (n: usize)
    ensures
        n == pattern_count(pattern),
{
    match pattern {
        ClickPattern::Single => 1,
        ClickPattern::Double => 2,
        ClickPattern::Triple => 3,
    }
}

/// The modifier keys of `mods`, in press order: Ctrl, Shift, Alt, Win.
pub open spec fn modifier_keys(mods: KeyMods) -> Seq<u16> {
    (if mods.ctrl { seq![VK_CONTROL] } else { seq![] }) + (if mods.shift {
        seq![VK_SHIFT]
    } else {
        seq![]
    }) + (if mods.alt { seq![VK_MENU] } else { seq![] }) + (if mods.win {
        seq![VK_LWIN]
    } else {
        seq![]
    })
}

/// Keys pressed by a key tap, in order: the modifiers, then the key.
pub open spec fn tap_press_order(vk: u16, mods: KeyMods) -> Seq<u16> {
    modifier_keys(mods).push(vk)
}

/// Keys released by a key tap, in order: the key, then the modifiers in
/// reverse press order.
pub open spec fn tap_release_order(vk: u16, mods: KeyMods) -> Seq<u16> {
    tap_press_order(vk, mods).reverse()
}

/// The two phases of a key tap: the keys to press (modifiers first), and
/// the keys to release after the hold (the key first, modifiers in reverse).
pub fn key_tap_plan(vk: u16, mods: KeyMods) -> (plan: (Vec<u16>, Vec<u16>))
    ensures
        plan.0@ == tap_press_order(vk, mods),
        plan.1@ == tap_release_order(vk, mods),
{
    let mut down: Vec<u16> = Vec::new();
    if mods.ctrl {
        down.push(VK_CONTROL);
    }
    if mods.shift {
        down.push(VK_SHIFT);
    }
    if mods.alt {
        down.push(VK_MENU);
    }
    if mods.win {
        down.push(VK_LWIN);
    }
    down.push(vk);
    let mut up: Vec<u16> = Vec::new();
    up.push(vk);
    if mods.win {
        up.push(VK_LWIN);
    }
    if mods.alt {
        up.push(VK_MENU);
    }
    if mods.shift {
        up.push(VK_SHIFT);
    }
    if mods.ctrl {
        up.push(VK_CONTROL);
    }
    assert(down@ =~= tap_press_order(vk, mods));
    assert(up@ =~= tap_release_order(vk, mods));
    (down, up)
}

/// The low 16 bits of a coordinate, as a two's-complement 16-bit value.
pub open spec fn low_word(v: i32) -> u32 {
    (v as int % 0x1_0000) as u32
}

/// Packs a client-area point the way mouse-button window messages carry it:
/// x in the low 16 bits, y in the next 16, each truncated to 16 bits.
pub fn pack_mouse_point(x: i32, y: i32) -> (r: u32)
    ensures
        r as int == low_word(x) + low_word(y) * 0x1_0000,
{
    let xl = (#[verifier::truncate] (#[verifier::truncate] (x as i16) as u16)) as u32;
    let yl = (#[verifier::truncate] (#[verifier::truncate] (y as i16) as u16)) as u32;
    assert(xl == low_word(x) && yl == low_word(y)) by (bit_vector)
        requires
            xl == (x as i16 as u16) as u32,
            yl == (y as i16 as u16) as u32,
    ;
    assert((xl | (yl << 16)) == xl + yl * 0x1_0000) by (bit_vector)
        requires
            xl < 0x1_0000,
            yl < 0x1_0000,
    ;
    xl | (yl << 16)
}

} // verus!
