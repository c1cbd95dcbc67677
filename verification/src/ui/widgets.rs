use vstd::prelude::*;

use crate::engine::command::HotkeyBinding;
use crate::ui::theme::Theme;
use crate::util::keycodes::{key_name, lookup_name};

verus! {

/// The modifier part of a binding's label: `Ctrl+`, `Shift+`, `Alt+`, `Win+`
/// for each held modifier, in that order.
pub open spec fn modifier_prefix(b: HotkeyBinding) -> Seq<char> {
    (if b.ctrl {
        "Ctrl+"@
    } else {
        Seq::empty()
    }) + (if b.shift {
        "Shift+"@
    } else {
        Seq::empty()
    }) + (if b.alt {
        "Alt+"@
    } else {
        Seq::empty()
    }) + (if b.win {
        "Win+"@
    } else {
        Seq::empty()
    })
}

/// The label of a key code: its name, or `?` when it has none.
pub open spec fn key_label(vk: u16) -> Seq<char> {
    match key_name(vk) {
        Some(n) => n@,
        None => "?"@,
    }
}

/// The label of a binding: `—` when unbound, else the modifiers joined to
/// the key name with `+` (for example `Ctrl+Shift+F6`).
pub open spec fn binding_label(b: HotkeyBinding) -> Seq<char> {
    if b.vk == 0 {
        "\u{2014}"@
    } else {
        modifier_prefix(b) + key_label(b.vk)
    }
}

/// The label shown for a hotkey binding (see `binding_label`).
pub fn format_binding(b: &HotkeyBinding) -> (s: String)
    ensures
        s@ == binding_label(*b),
{
    if !b.is_set() {
        return String::from_str("\u{2014}");
    }
    let mut s = String::new();
    if b.ctrl {
        s.append("Ctrl+");
    }
    if b.shift {
        s.append("Shift+");
    }
    if b.alt {
        s.append("Alt+");
    }
    if b.win {
        s.append("Win+");
    }
    match lookup_name(b.vk) {
        Some(n) => s.append(n),
        None => s.append("?"),
    }
    assert(s@ =~= binding_label(*b));
    s
}

/// The other theme.
pub open spec fn other_theme(t: Theme) -> Theme {
    match t {
        Theme::Dark => Theme::Light,
        Theme::Light => Theme::Dark,
    }
}

/// The theme to switch to from the current one: the other one.
pub fn next_theme(current: Theme) -> (t: Theme)
    ensures
        t == other_theme(current),
{
    match current {
        Theme::Dark => Theme::Light,
        Theme::Light => Theme::Dark,
    }
}

/// Switching the theme always changes it, and switching twice gives the
/// theme back.
pub proof fn lemma_next_theme_involution(t: Theme)
    ensures
        other_theme(t) != t,
        other_theme(other_theme(t)) == t,
{
}

/// A key event as the window saw it: whether it is a press that is not a
/// repeat, whether the key is Escape, the virtual-key code the key maps to
/// (if any), and the modifiers held.
#[derive(Debug, Clone, Copy, PartialEq, Eq, Structural)]
pub struct KeyPress {
    pub fresh_press: bool,
    pub escape: bool,
    pub vk: Option<u16>,
    pub ctrl: bool,
    pub shift: bool,
    pub alt: bool,
}

/// What a key event means while a hotkey is captured: Escape with none of
/// Ctrl, Shift, Alt cancels (an unbound binding); a key with a code binds it
/// with the held modifiers (never Win); anything else means nothing.
pub open spec fn hotkey_of_press(k: KeyPress) -> Option<HotkeyBinding> {
    if !k.fresh_press {
        None
    } else if k.escape && !k.ctrl && !k.shift && !k.alt {
        Some(HotkeyBinding { vk: 0, ctrl: false, shift: false, alt: false, win: false })
    } else {
        match k.vk {
            Some(vk) => Some(HotkeyBinding { vk, ctrl: k.ctrl, shift: k.shift, alt: k.alt, win: false }),
            None => None,
        }
    }
}

/// The first meaningful answer among `events` (see `hotkey_of_press`).
pub open spec fn first_hotkey(events: Seq<KeyPress>) -> Option<HotkeyBinding>
    decreases events.len(),
{
    if events.len() == 0 {
        None
    } else {
        match hotkey_of_press(events[0]) {
            Some(b) => Some(b),
            None => first_hotkey(events.drop_first()),
        }
    }
}

/// The binding the key events of a frame give while a hotkey is captured.
pub fn captured_hotkey(events: &Vec<KeyPress>) -> (r: Option<HotkeyBinding>)
    ensures
        r == first_hotkey(events@),
{
    let mut i: usize = 0;
    assert(events@.subrange(0, events.len() as int) =~= events@);
    while i < events.len()
        invariant
            i <= events.len(),
            first_hotkey(events@) == first_hotkey(events@.subrange(i as int, events.len() as int)),
        decreases events.len() - i,
    {
        let k = events[i];
        assert(events@.subrange(i as int, events.len() as int).drop_first() =~= events@.subrange(
            i + 1,
            events.len() as int,
        ));
        if k.fresh_press {
            if k.escape && !k.ctrl && !k.shift && !k.alt {
                return Some(HotkeyBinding { vk: 0, ctrl: false, shift: false, alt: false, win: false });
            }
            if let Some(vk) = k.vk {
                return Some(HotkeyBinding { vk, ctrl: k.ctrl, shift: k.shift, alt: k.alt, win: false });
            }
        }
        i += 1;
    }
    None
}

/// The press that answers a hotkey capture binds its own key with exactly
/// the modifiers held: when the first fresh press that is a plain Escape or
/// carries a key code is a key other than a plain Escape, the captured
/// binding is that key code with that press's Ctrl, Shift and Alt, and never
/// Win.
pub proof fn lemma_captured_hotkey_binds_held_modifiers(events: Seq<KeyPress>, i: int)
    requires
        0 <= i < events.len(),
        forall|j: int|
            0 <= j < i ==> !(#[trigger] events[j]).fresh_press || (!(events[j].escape
                && !events[j].ctrl && !events[j].shift && !events[j].alt) && events[j].vk is None),
        events[i].fresh_press,
        !(events[i].escape && !events[i].ctrl && !events[i].shift && !events[i].alt),
        events[i].vk is Some,
    ensures
        first_hotkey(events) matches Some(b) && Some(b.vk) == events[i].vk && b.ctrl == events[i].ctrl
            && b.shift == events[i].shift && b.alt == events[i].alt && !b.win,
    decreases i,
{
    if i > 0 {
        let rest = events.drop_first();
        assert forall|j: int| 0 <= j < i - 1 implies !(#[trigger] rest[j]).fresh_press || (!(
        rest[j].escape && !rest[j].ctrl && !rest[j].shift && !rest[j].alt) && rest[j].vk is None) by {
            assert(rest[j] == events[j + 1]);
        }
        assert(!events[0].fresh_press || (!(events[0].escape && !events[0].ctrl && !events[0].shift
            && !events[0].alt) && events[0].vk is None));
        lemma_captured_hotkey_binds_held_modifiers(rest, i - 1);
    }
}

/// A plain Escape (no Ctrl, Shift or Alt) that answers a hotkey capture
/// first cancels it: the answer is the unbound binding.
pub proof fn lemma_captured_hotkey_escape_cancels(events: Seq<KeyPress>, i: int)
    requires
        0 <= i < events.len(),
        forall|j: int|
            0 <= j < i ==> !(#[trigger] events[j]).fresh_press || (!(events[j].escape
                && !events[j].ctrl && !events[j].shift && !events[j].alt) && events[j].vk is None),
        events[i].fresh_press,
        events[i].escape && !events[i].ctrl && !events[i].shift && !events[i].alt,
    ensures
        first_hotkey(events) == Some(HotkeyBinding { vk: 0, ctrl: false, shift: false, alt: false, win: false }),
    decreases i,
{
    if i > 0 {
        let rest = events.drop_first();
        assert forall|j: int| 0 <= j < i - 1 implies !(#[trigger] rest[j]).fresh_press || (!(
        rest[j].escape && !rest[j].ctrl && !rest[j].shift && !rest[j].alt) && rest[j].vk is None) by {
            assert(rest[j] == events[j + 1]);
        }
        assert(!events[0].fresh_press || (!(events[0].escape && !events[0].ctrl && !events[0].shift
            && !events[0].alt) && events[0].vk is None));
        lemma_captured_hotkey_escape_cancels(rest, i - 1);
    }
}

/// Applies a frame's key events to a hotkey being captured: a bound answer
/// replaces the binding (returning `true`); any answer ends the capture; no
/// answer leaves both as they are. Not capturing, nothing happens.
pub fn rebind_hotkey(binding: &mut HotkeyBinding, capturing: &mut bool, events: &Vec<KeyPress>) -> (changed: bool)
    ensures
        ({
            let answer = first_hotkey(events@);
            if !*old(capturing) || answer is None {
                &&& !changed
                &&& *final(binding) == *old(binding)
                &&& *final(capturing) == *old(capturing)
            } else {
                &&& !*final(capturing)
                &&& changed == (answer->0.vk != 0)
                &&& *final(binding) == if changed { answer->0 } else { *old(binding) }
            }
        }),
{
    if !*capturing {
        return false;
    }
    match captured_hotkey(events) {
        Some(b) => {
            *capturing = false;
            if b.is_set() {
                *binding = b;
                true
            } else {
                false
            }
        },
        None => false,
    }
}

/// What a key event means while the key to press is captured: Escape
/// cancels (0); another key with a code picks it; anything else means
/// nothing.
pub open spec fn key_of_press(k: KeyPress) -> Option<u16> {
    if !k.fresh_press {
        None
    } else if k.escape {
        Some(0)
    } else {
        k.vk
    }
}

/// The first meaningful answer among `events` (see `key_of_press`).
pub open spec fn first_key(events: Seq<KeyPress>) -> Option<u16>
    decreases events.len(),
{
    if events.len() == 0 {
        None
    } else {
        match key_of_press(events[0]) {
            Some(v) => Some(v),
            None => first_key(events.drop_first()),
        }
    }
}

/// The press that answers a key capture picks its own key: when the first
/// fresh press that is Escape or carries a key code is not Escape, the
/// captured key is that press's key code.
pub proof fn lemma_captured_key_is_the_pressed_key(events: Seq<KeyPress>, i: int)
    requires
        0 <= i < events.len(),
        forall|j: int|
            0 <= j < i ==> !(#[trigger] events[j]).fresh_press || (!events[j].escape && events[j].vk is None),
        events[i].fresh_press,
        !events[i].escape,
        events[i].vk is Some,
    ensures
        first_key(events) == events[i].vk,
    decreases i,
{
    if i > 0 {
        let rest = events.drop_first();
        assert forall|j: int| 0 <= j < i - 1 implies !(#[trigger] rest[j]).fresh_press || (
        !rest[j].escape && rest[j].vk is None) by {
            assert(rest[j] == events[j + 1]);
        }
        assert(!events[0].fresh_press || (!events[0].escape && events[0].vk is None));
        lemma_captured_key_is_the_pressed_key(rest, i - 1);
    }
}

/// The key the key events of a frame give while the key to press is
/// captured (0 for a cancel).
pub fn captured_key(events: &Vec<KeyPress>) -> (r: Option<u16>)
    ensures
        r == first_key(events@),
{
    let mut i: usize = 0;
    assert(events@.subrange(0, events.len() as int) =~= events@);
    while i < events.len()
        invariant
            i <= events.len(),
            first_key(events@) == first_key(events@.subrange(i as int, events.len() as int)),
        decreases events.len() - i,
    {
        let k = events[i];
        assert(events@.subrange(i as int, events.len() as int).drop_first() =~= events@.subrange(
            i + 1,
            events.len() as int,
        ));
        if k.fresh_press {
            if k.escape {
                return Some(0);
            }
            if let Some(v) = k.vk {
                return Some(v);
            }
        }
        i += 1;
    }
    None
}

/// Applies a frame's key events to the key being captured: a new non-zero
/// key replaces it (returning `true`); any answer ends the capture; no
/// answer leaves both as they are. Not capturing, nothing happens.
pub fn rebind_key(vk: &mut u16, capturing: &mut bool, events: &Vec<KeyPress>) -> (changed: bool)
    ensures
        ({
            let answer = first_key(events@);
            if !*old(capturing) || answer is None {
                &&& !changed
                &&& *final(vk) == *old(vk)
                &&& *final(capturing) == *old(capturing)
            } else {
                &&& !*final(capturing)
                &&& changed == (answer->0 != 0 && answer->0 != *old(vk))
                &&& *final(vk) == if changed { answer->0 } else { *old(vk) }
            }
        }),
{
    if !*capturing {
        return false;
    }
    match captured_key(events) {
        Some(v) => {
            *capturing = false;
            if v != 0 && *vk != v {
                *vk = v;
                true
            } else {
                false
            }
        },
        None => false,
    }
}

} // verus!
