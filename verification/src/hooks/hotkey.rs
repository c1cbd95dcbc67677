use vstd::prelude::*;

use crossbeam_channel::Sender;

use crate::engine::command::{packed_value, unpacked_value, Command, HotkeyBinding};
use crate::hooks::channel::try_send;

verus! {

/// Identifier of the start/stop hotkey registration.
pub const HOTKEY_ID_TOGGLE: i32 = 1;
/// Identifier of the record hotkey registration.
pub const HOTKEY_ID_RECORD: i32 = 2;

/// Win32 `RegisterHotKey` modifier flags.
pub const MOD_ALT: u32 = 0x0001;
pub const MOD_CONTROL: u32 = 0x0002;
pub const MOD_SHIFT: u32 = 0x0004;
pub const MOD_WIN: u32 = 0x0008;
pub const MOD_NOREPEAT: u32 = 0x4000;

/// What the hotkey thread and the interface share: both bindings in packed
/// form, whether a rebind capture is in progress, and how many record-hotkey
/// presses have arrived (a wrapping counter).
#[derive(Debug, Clone, Copy)]
pub struct HotkeyState {
    pub toggle_binding: u32,
    pub macro_record_binding: u32,
    pub rebind_active: bool,
    pub macro_record_requests: u32,
}

/// One hotkey registration: its identifier, modifier flags and key code.
#[derive(Debug, Clone, Copy, PartialEq, Eq, Structural)]
pub struct Registration {
    pub id: i32,
    pub mods: u32,
    pub vk: u32,
}

/// What a `WM_HOTKEY` message leads to.
#[derive(Debug, Clone, Copy, PartialEq, Eq, Structural)]
pub enum HotkeyDispatch {
    /// Send `Command::Toggle` to the engine and wake the interface.
    Toggle,
    /// The record counter went up; wake the interface.
    Record,
    /// Nothing to do.
    Ignored,
}

/// The modifier flags a binding is registered with: always `MOD_NOREPEAT`,
/// plus one flag per held modifier.
pub open spec fn mods_of(b: HotkeyBinding) -> int {
    MOD_NOREPEAT + (if b.ctrl { MOD_CONTROL as int } else { 0 }) + (if b.shift {
        MOD_SHIFT as int
    } else {
        0
    }) + (if b.alt { MOD_ALT as int } else { 0 }) + (if b.win { MOD_WIN as int } else { 0 })
}

/// The registration a packed binding asks for, if any: none when it unpacks to
/// nothing or to an unbound key.
pub open spec fn registration_of(id: i32, packed: u32) -> Seq<Registration> {
    match unpacked_value(packed) {
        Some(b) => if b.vk != 0 {
            seq![Registration { id, mods: mods_of(b) as u32, vk: b.vk as u32 }]
        } else {
            seq![]
        },
        None => seq![],
    }
}

/// The registrations that should be in force: none while a rebind capture
/// runs (so the bound key reaches the window), else the toggle hotkey then the
/// record hotkey, each when bound.
pub open spec fn registrations_of(st: HotkeyState) -> Seq<Registration> {
    if st.rebind_active {
        seq![]
    } else {
        registration_of(HOTKEY_ID_TOGGLE, st.toggle_binding) + registration_of(
            HOTKEY_ID_RECORD,
            st.macro_record_binding,
        )
    }
}

/// Whether a packed binding stands for a key with code `vk`.
pub open spec fn binds_vk(packed: u32, vk: u16) -> bool {
    unpacked_value(packed) is Some && unpacked_value(packed)->0.vk == vk
}

impl HotkeyState {
    /// No bindings, no capture, no requests.
    pub fn new() -> (r: Self)
        ensures
            r.toggle_binding == 0,
            r.macro_record_binding == 0,
            !r.rebind_active,
            r.macro_record_requests == 0,
    {
        HotkeyState {
            toggle_binding: 0,
            macro_record_binding: 0,
            rebind_active: false,
            macro_record_requests: 0,
        }
    }
}

/// Stores a new start/stop binding. The hotkey thread re-registers after it.
pub fn set_toggle_binding(st: &mut HotkeyState, b: HotkeyBinding)
    ensures
        final(st).toggle_binding as int == packed_value(b),
        final(st).macro_record_binding == old(st).macro_record_binding,
        final(st).rebind_active == old(st).rebind_active,
        final(st).macro_record_requests == old(st).macro_record_requests,
{
    st.toggle_binding = b.pack();
}

/// Stores a new record binding. The hotkey thread re-registers after it.
pub fn set_macro_record_binding(st: &mut HotkeyState, b: HotkeyBinding)
    ensures
        final(st).macro_record_binding as int == packed_value(b),
        final(st).toggle_binding == old(st).toggle_binding,
        final(st).rebind_active == old(st).rebind_active,
        final(st).macro_record_requests == old(st).macro_record_requests,
{
    st.macro_record_binding = b.pack();
}

/// Turns the rebind capture on or off; returns whether it changed, in which
/// case the hotkey thread must re-register.
pub fn set_rebind_active(st: &mut HotkeyState, on: bool) -> (changed: bool)
    ensures
        changed == (old(st).rebind_active != on),
        final(st).rebind_active == on,
        final(st).toggle_binding == old(st).toggle_binding,
        final(st).macro_record_binding == old(st).macro_record_binding,
        final(st).macro_record_requests == old(st).macro_record_requests,
{
    let prev = st.rebind_active;
    st.rebind_active = on;
    prev != on
}

/// Counts one more record-hotkey press (wrapping).
pub fn dispatch_macro_record(st: &mut HotkeyState)
    ensures
        final(st).macro_record_requests as int == (old(st).macro_record_requests as int + 1)
            % 0x1_0000_0000,
        final(st).toggle_binding == old(st).toggle_binding,
        final(st).macro_record_binding == old(st).macro_record_binding,
        final(st).rebind_active == old(st).rebind_active,
{
    st.macro_record_requests = st.macro_record_requests.wrapping_add(1);
}

/// How many record-hotkey presses arrived since `last_seen` (modulo 2^32), and
/// moves `last_seen` up to the current count.
pub fn take_macro_record_requests(st: &HotkeyState, last_seen: &mut u32) -> (delta: u32)
    ensures
        *final(last_seen) == st.macro_record_requests,
        delta as int == (st.macro_record_requests as int - *old(last_seen) as int) % 0x1_0000_0000,
{
    let now = st.macro_record_requests;
    let delta = now.wrapping_sub(*last_seen);
    *last_seen = now;
    delta
}

/// Whether either binding uses the key `vk`.
pub fn is_bound_vk(st: &HotkeyState, vk: u16) -> (r: bool)
    ensures
        r == (binds_vk(st.toggle_binding, vk) || binds_vk(st.macro_record_binding, vk)),
{
    if let Some(b) = HotkeyBinding::unpack(st.toggle_binding) {
        if b.vk == vk {
            return true;
        }
    }
    if let Some(b) = HotkeyBinding::unpack(st.macro_record_binding) {
        if b.vk == vk {
            return true;
        }
    }
    false
}

/// The modifier flags to register a binding with.
pub fn hotkey_binding_to_mods(b: &HotkeyBinding) -> (m: u32)
    ensures
        m as int == mods_of(*b),
{
    let mut m: u32 = MOD_NOREPEAT;
    if b.ctrl {
        m = m + MOD_CONTROL;
    }
    if b.shift {
        m = m + MOD_SHIFT;
    }
    if b.alt {
        m = m + MOD_ALT;
    }
    if b.win {
        m = m + MOD_WIN;
    }
    m
}

fn push_registration(out: &mut Vec<Registration>, id: i32, packed: u32)
    ensures
        final(out)@ == old(out)@ + registration_of(id, packed),
{
    if let Some(b) = HotkeyBinding::unpack(packed) {
        if b.is_set() {
            let mods = hotkey_binding_to_mods(&b);
            out.push(Registration { id, mods, vk: b.vk as u32 });
        }
    }
    assert(final(out)@ =~= old(out)@ + registration_of(id, packed)) by {}
}

/// The hotkeys to register after every previous registration is torn down.
pub fn registrations(st: &HotkeyState) -> (r: Vec<Registration>)
    ensures
        r@ == registrations_of(*st),
{
    let mut r: Vec<Registration> = Vec::new();
    if st.rebind_active {
        return r;
    }
    push_registration(&mut r, HOTKEY_ID_TOGGLE, st.toggle_binding);
    push_registration(&mut r, HOTKEY_ID_RECORD, st.macro_record_binding);
    r
}

/// Handles a `WM_HOTKEY` message with the given registration identifier,
/// `window_focused` telling whether this program's window has the focus.
/// While a rebind capture runs, or for an unknown identifier, nothing
/// happens. A record press counts only while the window is not focused (a
/// press while it is focused is ignored); it is counted here.
pub fn on_hotkey(st: &mut HotkeyState, id: i32, window_focused: bool) -> (d: HotkeyDispatch)
    ensures
        d == (if old(st).rebind_active {
            HotkeyDispatch::Ignored
        } else if id == HOTKEY_ID_TOGGLE {
            HotkeyDispatch::Toggle
        } else if id == HOTKEY_ID_RECORD && !window_focused {
            HotkeyDispatch::Record
        } else {
            HotkeyDispatch::Ignored
        }),
        final(st).macro_record_requests as int == (if d == HotkeyDispatch::Record {
            (old(st).macro_record_requests as int + 1) % 0x1_0000_0000
        } else {
            old(st).macro_record_requests as int
        }),
        final(st).toggle_binding == old(st).toggle_binding,
        final(st).macro_record_binding == old(st).macro_record_binding,
        final(st).rebind_active == old(st).rebind_active,
{
    if st.rebind_active {
        HotkeyDispatch::Ignored
    } else if id == HOTKEY_ID_TOGGLE {
        HotkeyDispatch::Toggle
    } else if id == HOTKEY_ID_RECORD && !window_focused {
        dispatch_macro_record(st);
        HotkeyDispatch::Record
    } else {
        HotkeyDispatch::Ignored
    }
}

/// Hands `Command::Toggle` to the engine's channel, when one is installed,
/// without blocking. When it is not taken (no channel, or the channel
/// refuses it), that command comes back.
pub fn dispatch_toggle(tx: Option<&Sender<Command>>) -> (r: Result<(), Command>)
    ensures
        tx is None ==> r is Err,
        r matches Err(c) ==> c == Command::Toggle,
{
    match tx {
        Some(t) => try_send(t, Command::Toggle),
        None => Err(Command::Toggle),
    }
}

/// One more press on top of `k` presses since `seen` is `k + 1` presses:
/// `dispatch_macro_record` keeps the counter at `seen + k` modulo 2^32.
pub proof fn lemma_one_more_press(seen: u32, k: nat)
    ensures
        ((seen as int + k) % 0x1_0000_0000 + 1) % 0x1_0000_0000 == (seen as int + k + 1)
            % 0x1_0000_0000,
{
    vstd::arithmetic::div_mod::lemma_add_mod_noop(seen as int + k, 1, 0x1_0000_0000);
    vstd::arithmetic::div_mod::lemma_mod_twice(seen as int + k, 0x1_0000_0000);
    assert(1int % 0x1_0000_0000 == 1);
}

/// Every press between two takes is reported: when the counter stands `k`
/// presses past the value last taken, `take_macro_record_requests` returns
/// `k` modulo 2^32 (so a take right after another returns 0).
pub proof fn lemma_presses_counted(seen: u32, counter: u32, k: nat)
    requires
        counter as int == (seen as int + k) % 0x1_0000_0000,
    ensures
        (counter as int - seen as int) % 0x1_0000_0000 == k % 0x1_0000_0000,
{
    vstd::arithmetic::div_mod::lemma_sub_mod_noop(seen as int + k, seen as int, 0x1_0000_0000);
    vstd::arithmetic::div_mod::lemma_small_mod(seen as nat, 0x1_0000_0000);
    assert(seen as int + k - seen as int == k);
    vstd::arithmetic::div_mod::lemma_mod_twice(counter as int - seen as int, 0x1_0000_0000);
}

} // verus!
