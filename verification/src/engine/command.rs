use std::sync::Arc;

use vstd::prelude::*;

use super::macros::Macro;

verus! {

#[derive(Debug, Clone, Copy, PartialEq, Eq, Structural)]
pub enum MouseButton {
    Left,
    Right,
    Middle,
}

impl Default for MouseButton {
    fn default() -> (r: Self)
        ensures
            r == MouseButton::Left,
    {
        MouseButton::Left
    }
}

/// How many clicks one autoclick event sends.
#[derive(Debug, Clone, Copy, PartialEq, Eq, Structural)]
pub enum ClickPattern {
    Single,
    Double,
    Triple,
}

impl Default for ClickPattern {
    fn default() -> (r: Self)
        ensures
            r == ClickPattern::Single,
    {
        ClickPattern::Single
    }
}

/// Where a click lands: at the current cursor, or at a fixed screen point.
#[derive(Debug, Clone, Copy, PartialEq, Eq, Structural)]
pub enum Target {
    Cursor,
    FixedPoint { x: i32, y: i32 },
}

impl Default for Target {
    fn default() -> (r: Self)
        ensures
            r == Target::Cursor,
    {
        Target::Cursor
    }
}

/// What the hotkey does for a mouse/keyboard action.
/// - `Auto`: toggle the autoclick/autopress loop on hotkey press.
/// - `Hold`: toggle a virtual latch (button/key stays down) on hotkey press.
#[derive(Debug, Clone, Copy, PartialEq, Eq, Structural)]
pub enum TriggerMode {
    Auto,
    Hold,
}

impl Default for TriggerMode {
    fn default() -> (r: Self)
        ensures
            r == TriggerMode::Auto,
    {
        TriggerMode::Auto
    }
}

/// The action the engine performs. A mouse action in `Hold` mode with
/// `repeat_while_toggled` set is driven by the tick loop as repeated single
/// clicks instead of a latched button.
#[derive(Debug, Clone, Copy, PartialEq, Eq, Structural)]
pub enum Action {
    MouseClick {
        button: MouseButton,
        pattern: ClickPattern,
        target: Target,
        mode: TriggerMode,
        repeat_while_toggled: bool,
    },
    KeyTap { vk: u16, mods: KeyMods, mode: TriggerMode },
    PlayMacro,
}

/// The default action: single left clicks at the cursor, in auto mode.
pub open spec fn default_action() -> Action {
    Action::MouseClick {
        button: MouseButton::Left,
        pattern: ClickPattern::Single,
        target: Target::Cursor,
        mode: TriggerMode::Auto,
        repeat_while_toggled: false,
    }
}

impl Default for Action {
    fn default() -> (r: Self)
        ensures
            r == default_action(),
    {
        Action::MouseClick {
            button: MouseButton::Left,
            pattern: ClickPattern::Single,
            target: Target::Cursor,
            mode: TriggerMode::Auto,
            repeat_while_toggled: false,
        }
    }
}

#[derive(Debug, Clone, Copy, PartialEq, Eq, Structural)]
pub enum JitterCurve {
    Uniform,
    Gaussian,
}

impl Default for JitterCurve {
    fn default() -> (r: Self)
        ensures
            r == JitterCurve::Uniform,
    {
        JitterCurve::Uniform
    }
}

/// Rate settings. The clicks-per-second target is held in thousandths
/// (`cps_milli == 10_000` is 10 cps).
#[derive(Debug, Clone, Copy, PartialEq, Eq, Structural)]
pub struct RateConfig {
    pub interval_ms: u64,
    pub use_cps: bool,
    pub cps_milli: u32,
    pub jitter_enabled: bool,
    pub jitter_max_ms: u32,
    pub jitter_curve: JitterCurve,
    /// Minimum key-down → key-up duration (ms) per event when jitter is on.
    pub hold_min_ms: u32,
    /// Maximum key-down → key-up duration (ms) per event when jitter is on.
    /// Set equal to `hold_min_ms` for a constant hold duration.
    pub hold_max_ms: u32,
}

/// Clicks-per-second targets below 0.1 are treated as 0.1.
pub open spec fn effective_cps_milli(cps_milli: u32) -> int {
    if cps_milli < 100 { 100 } else { cps_milli as int }
}

/// The un-jittered period between events, in milliseconds: from the cps
/// target (1000 / cps, rounded down) or the fixed interval, and never below 1.
pub open spec fn base_interval_ms(r: RateConfig) -> int {
    let ms = if r.use_cps {
        1_000_000int / effective_cps_milli(r.cps_milli)
    } else {
        r.interval_ms as int
    };
    if ms < 1 { 1 } else { ms }
}

/// The default rate: 10 cps, no jitter, holds of 0–20 ms when jitter is on.
pub open spec fn default_rate() -> RateConfig {
    RateConfig {
        interval_ms: 100,
        use_cps: true,
        cps_milli: 10_000,
        jitter_enabled: false,
        jitter_max_ms: 0,
        jitter_curve: JitterCurve::Uniform,
        hold_min_ms: 0,
        hold_max_ms: 20,
    }
}

/// The rate with the maximum hold raised to the minimum when below it.
pub open spec fn normalized_rate(r: RateConfig) -> RateConfig {
    RateConfig {
        hold_max_ms: if r.hold_max_ms < r.hold_min_ms {
            r.hold_min_ms
        } else {
            r.hold_max_ms
        },
        ..r
    }
}

/// Whether a rate aims at a clicks-per-second target unless told otherwise.
pub fn default_use_cps() -> (r: bool)
    ensures
        r == default_rate().use_cps,
{
    true
}

/// The default longest hold, in milliseconds.
pub fn default_hold_max_ms() -> (r: u32)
    ensures
        r == default_rate().hold_max_ms,
{
    20
}

impl Default for RateConfig {
    fn default() -> (r: Self)
        ensures
            r == default_rate(),
    {
        RateConfig {
            interval_ms: 100,
            use_cps: default_use_cps(),
            cps_milli: 10_000,
            jitter_enabled: false,
            jitter_max_ms: 0,
            jitter_curve: JitterCurve::Uniform,
            hold_min_ms: 0,
            hold_max_ms: default_hold_max_ms(),
        }
    }
}

impl RateConfig {
    /// The base period between events in milliseconds (see `base_interval_ms`).
    pub fn base_interval(&self) -> (ms: u64)
        ensures
            ms as int == base_interval_ms(*self),
    {
        let ms = if self.use_cps {
            let cps = if self.cps_milli < 100 { 100 } else { self.cps_milli };
            (1_000_000u32 / cps) as u64
        } else {
            self.interval_ms
        };
        if ms < 1 { 1 } else { ms }
    }

    /// The same settings with the hold range made consistent: the maximum
    /// hold is raised to the minimum when it was below it.
    pub fn normalized(&self) -> (r: Self)
        ensures
            r == normalized_rate(*self),
    {
        let mut r = *self;
        if r.hold_max_ms < r.hold_min_ms {
            r.hold_max_ms = r.hold_min_ms;
        }
        r
    }
}

/// When a running action stops by itself.
#[derive(Debug, Clone, Copy, PartialEq, Eq, Structural)]
pub enum StopAfter {
    Never,
    Count { n: u64 },
    Duration { ms: u64 },
}

impl Default for StopAfter {
    fn default() -> (r: Self)
        ensures
            r == StopAfter::Never,
    {
        StopAfter::Never
    }
}

/// Modifier keys that accompany a tapped or latched key.
#[derive(Debug, Clone, Copy, PartialEq, Eq, Structural)]
pub struct KeyMods {
    pub ctrl: bool,
    pub shift: bool,
    pub alt: bool,
    pub win: bool,
}

impl Default for KeyMods {
    fn default() -> (r: Self)
        ensures
            !r.ctrl && !r.shift && !r.alt && !r.win,
    {
        KeyMods { ctrl: false, shift: false, alt: false, win: false }
    }
}

/// A global hotkey: a virtual-key code plus modifiers. `vk == 0` means unbound.
#[derive(Debug, Clone, Copy, PartialEq, Eq, Structural)]
pub struct HotkeyBinding {
    pub vk: u16,
    pub ctrl: bool,
    pub shift: bool,
    pub alt: bool,
    pub win: bool,
}

/// Weight of a flag bit in the packed form.
pub open spec fn flag_value(on: bool, weight: int) -> int {
    if on { weight } else { 0 }
}

/// The packed form of a binding: the key code in the low 16 bits, then one bit
/// each for Ctrl (bit 16), Shift (17), Alt (18) and Win (19); an unbound
/// binding packs to 0.
pub open spec fn packed_value(b: HotkeyBinding) -> int {
    if b.vk == 0 {
        0
    } else {
        b.vk as int + flag_value(b.ctrl, 0x1_0000) + flag_value(b.shift, 0x2_0000)
            + flag_value(b.alt, 0x4_0000) + flag_value(b.win, 0x8_0000)
    }
}

/// The binding that a packed value stands for: `None` when its low 16 bits are 0.
pub open spec fn unpacked_value(v: u32) -> Option<HotkeyBinding> {
    if v % 0x1_0000 == 0 {
        None
    } else {
        Some(
            HotkeyBinding {
                vk: (v % 0x1_0000) as u16,
                ctrl: (v / 0x1_0000) % 2 == 1,
                shift: (v / 0x2_0000) % 2 == 1,
                alt: (v / 0x4_0000) % 2 == 1,
                win: (v / 0x8_0000) % 2 == 1,
            },
        )
    }
}

impl Default for HotkeyBinding {
    fn default() -> (r: Self)
        ensures
            r.vk == 0 && !r.ctrl && !r.shift && !r.alt && !r.win,
    {
        HotkeyBinding { vk: 0, ctrl: false, shift: false, alt: false, win: false }
    }
}

proof fn lemma_or_bit(v: u32, bit: u32)
    requires
        bit == 0x1_0000 || bit == 0x2_0000 || bit == 0x4_0000 || bit == 0x8_0000,
        v < bit,
    ensures
        v | bit == v + bit,
{
    assert(v < bit && (bit == 0x1_0000u32 || bit == 0x2_0000u32 || bit == 0x4_0000u32
        || bit == 0x8_0000u32) ==> v | bit == v + bit) by (bit_vector);
}

proof fn lemma_bits_of(v: u32)
    ensures
        v & 0xFFFF == v % 0x1_0000,
        (v & 0x1_0000 != 0) == ((v / 0x1_0000) % 2 == 1),
        (v & 0x2_0000 != 0) == ((v / 0x2_0000) % 2 == 1),
        (v & 0x4_0000 != 0) == ((v / 0x4_0000) % 2 == 1),
        (v & 0x8_0000 != 0) == ((v / 0x8_0000) % 2 == 1),
{
    assert(v & 0xFFFF == v % 0x1_0000) by (bit_vector);
    assert((v & 0x1_0000 != 0) == ((v / 0x1_0000) % 2 == 1)) by (bit_vector);
    assert((v & 0x2_0000 != 0) == ((v / 0x2_0000) % 2 == 1)) by (bit_vector);
    assert((v & 0x4_0000 != 0) == ((v / 0x4_0000) % 2 == 1)) by (bit_vector);
    assert((v & 0x8_0000 != 0) == ((v / 0x8_0000) % 2 == 1)) by (bit_vector);
}

impl HotkeyBinding {
    pub fn new(vk: u16) -> (r: Self)
        ensures
            r.vk == vk && !r.ctrl && !r.shift && !r.alt && !r.win,
    {
        HotkeyBinding { vk, ctrl: false, shift: false, alt: false, win: false }
    }

    pub fn is_set(&self) -> (r: bool)
        ensures
            r == (self.vk != 0),
    {
        self.vk != 0
    }

    /// Encodes the binding into one `u32` (see `packed_value`).
    pub fn pack(&self) -> (r: u32)
        ensures
            r as int == packed_value(*self),
    {
        if !self.is_set() {
            return 0;
        }
        let mut v: u32 = self.vk as u32;
        if self.ctrl {
            proof { lemma_or_bit(v, 0x1_0000); }
            v = v | 0x1_0000;
        }
        if self.shift {
            proof { lemma_or_bit(v, 0x2_0000); }
            v = v | 0x2_0000;
        }
        if self.alt {
            proof { lemma_or_bit(v, 0x4_0000); }
            v = v | 0x4_0000;
        }
        if self.win {
            proof { lemma_or_bit(v, 0x8_0000); }
            v = v | 0x8_0000;
        }
        v
    }

    /// Decodes a packed binding; `None` when the key code part is 0.
    pub fn unpack(v: u32) -> (r: Option<Self>)
        ensures
            r == unpacked_value(v),
    {
        proof { lemma_bits_of(v); }
        let vk = (v & 0xFFFF) as u16;
        if vk == 0 {
            return None;
        }
        Some(
            HotkeyBinding {
                vk,
                ctrl: (v & 0x1_0000) != 0,
                shift: (v & 0x2_0000) != 0,
                alt: (v & 0x4_0000) != 0,
                win: (v & 0x8_0000) != 0,
            },
        )
    }
}

/// Packing a bound hotkey and unpacking the result gives the same hotkey back.
pub proof fn lemma_unpack_of_pack(b: HotkeyBinding)
    requires
        b.vk != 0,
    ensures
        packed_value(b) <= u32::MAX,
        unpacked_value(packed_value(b) as u32) == Some(b),
{
    let v = packed_value(b) as u32;
    let vk = b.vk as u32;
    let c: u32 = if b.ctrl { 1 } else { 0 };
    let s: u32 = if b.shift { 1 } else { 0 };
    let a: u32 = if b.alt { 1 } else { 0 };
    let w: u32 = if b.win { 1 } else { 0 };
    assert(v == vk + c * 0x1_0000 + s * 0x2_0000 + a * 0x4_0000 + w * 0x8_0000);
    assert(vk < 0x1_0000 && c < 2 && s < 2 && a < 2 && w < 2 && v == vk + c * 0x1_0000 + s
        * 0x2_0000 + a * 0x4_0000 + w * 0x8_0000 ==> v % 0x1_0000 == vk && (v / 0x1_0000) % 2
        == c && (v / 0x2_0000) % 2 == s && (v / 0x4_0000) % 2 == a && (v / 0x8_0000) % 2 == w)
        by (bit_vector);
}

/// Every binding that unpacks from a value packs back to that value with the
/// bits above bit 19 cleared.
pub proof fn lemma_pack_of_unpack(v: u32)
    requires
        unpacked_value(v) is Some,
    ensures
        packed_value(unpacked_value(v)->0) == v % 0x10_0000,
{
    let b = unpacked_value(v)->0;
    let c: u32 = if b.ctrl { 1 } else { 0 };
    let s: u32 = if b.shift { 1 } else { 0 };
    let a: u32 = if b.alt { 1 } else { 0 };
    let w: u32 = if b.win { 1 } else { 0 };
    assert(c == (v / 0x1_0000) % 2 && s == (v / 0x2_0000) % 2 && a == (v / 0x4_0000) % 2 && w
        == (v / 0x8_0000) % 2);
    assert(c == (v / 0x1_0000) % 2 && s == (v / 0x2_0000) % 2 && a == (v / 0x4_0000) % 2 && w
        == (v / 0x8_0000) % 2 ==> v % 0x10_0000 == v % 0x1_0000 + c * 0x1_0000 + s * 0x2_0000 + a
        * 0x4_0000 + w * 0x8_0000) by (bit_vector);
}

/// A binding packs to 0 exactly when it is unbound.
pub proof fn lemma_pack_zero_iff_unbound(b: HotkeyBinding)
    ensures
        (packed_value(b) == 0) == (b.vk == 0),
{
}

/// Instructions to the engine.
#[derive(Debug, Clone)]
pub enum Command {
    Start,
    Stop,
    Toggle,
    SetAction(Action),
    SetRate(RateConfig),
    SetStopAfter(StopAfter),
    LoadMacro(Arc<Macro>),
    SetMacroLoops(u32),
    ClearMacro,
    Shutdown,
}

/// What the engine reports back to the interface.
#[derive(Debug, Clone)]
pub enum EngineEvent {
    Started,
    Stopped,
    HeldChanged(Vec<u16>),
    MouseHeldChanged(Vec<MouseButton>),
}

} // verus!
