use vstd::prelude::*;

use std::sync::Arc;

use super::command::{
    base_interval_ms, default_action, default_rate, normalized_rate, Action, ClickPattern, Command, EngineEvent, JitterCurve, KeyMods,
    MouseButton, RateConfig, StopAfter, TriggerMode,
};
use super::input::InputOp;
use super::macros::{event_ops, play_event, Macro, MacroEvent};
use super::random::{random_i64_in, random_u32_in};
use super::virtual_hold::{
    button_byte, combo_keys, has_byte, key_downs, key_ups, latch_releases, latched_buttons,
    not_in, only_in, sorted_keys, target_of, without_byte, HoldView, VirtualHold,
};

verus! {

/// Minimum gap between macro loops so the last event of loop N doesn't fire
/// simultaneously with the first event of loop N+1 (recordings start at
/// delta=0 by construction).
pub const MACRO_LOOP_GAP_MS: u64 = 50;

/// Nanoseconds in a millisecond.
pub const NS_PER_MS: u64 = 1_000_000;

/// A period in milliseconds after a jitter offset, never below 1 ms (and
/// at most the largest `u64`).
pub open spec fn jittered_ms(base: int, offset: int) -> int {
    if base + offset < 1 {
        1
    } else if base + offset > u64::MAX {
        u64::MAX as int
    } else {
        base + offset
    }
}

/// `n / d` rounded to the nearest integer, halves away from zero (`d > 0`).
pub open spec fn round_div(n: int, d: int) -> int {
    if n >= 0 {
        (n + d / 2) / d
    } else {
        -((-n + d / 2) / d)
    }
}

/// The Gaussian jitter offset for a standard normal sample `z` given in
/// millionths: `z · max / 3` (so that ±3σ spans ±max), rounded to whole
/// milliseconds and clamped to `[-max, max]`.
pub open spec fn gaussian_offset(max: int, z_micro: int) -> int {
    let o = round_div(z_micro * max, 3_000_000);
    if o < -max {
        -max
    } else if o > max {
        max
    } else {
        o
    }
}

/// Whether `ms` is a period that `compute_interval` may choose: the base
/// period when jitter is off, moved by a uniformly drawn offset in
/// `[-max, max]` for the uniform curve, or by `gaussian_offset` of the given
/// sample for the Gaussian curve; never below 1 ms.
pub open spec fn interval_choice(rate: RateConfig, z_micro: int, ms: int) -> bool {
    let base = base_interval_ms(rate);
    let max = rate.jitter_max_ms as int;
    if rate.jitter_enabled && max > 0 {
        match rate.jitter_curve {
            JitterCurve::Uniform => exists|off: int| -max <= off <= max && ms == jittered_ms(base, off),
            JitterCurve::Gaussian => ms == jittered_ms(base, gaussian_offset(max, z_micro)),
        }
    } else {
        ms == base
    }
}

/// The Gaussian offset (see `gaussian_offset`).
pub fn gaussian_jitter(max: u32, z_micro: i64) -> (off: i64)
    ensures
        off == gaussian_offset(max as int, z_micro as int),
{
    assert(-0x8000_0000_0000_0000_0000_0000 <= (z_micro as int) * (max as int)
        <= 0x8000_0000_0000_0000_0000_0000) by (nonlinear_arith)
        requires
            -0x8000_0000_0000_0000 <= z_micro <= 0x7FFF_FFFF_FFFF_FFFF,
            0 <= max <= 0xFFFF_FFFF,
    ;
    let n: i128 = (z_micro as i128) * (max as i128);
    let o: i128 = if n >= 0 {
        (n + 1_500_000) / 3_000_000
    } else {
        -((-n + 1_500_000) / 3_000_000)
    };
    let m = max as i128;
    let c: i128 = if o < -m {
        -m
    } else if o > m {
        m
    } else {
        o
    };
    c as i64
}

/// The inclusive range a uniform jitter offset is drawn from: `[-max, max]`.
pub fn uniform_offset_range(max: u32) -> (r: (i64, i64))
    ensures
        r.0 == -(max as int),
        r.1 == max as int,
{
    (-(max as i64), max as i64)
}

/// The period for a base period and a jitter offset (see `jittered_ms`).
pub fn jittered_interval(base: u64, offset: i64) -> (ms: u64)
    ensures
        ms == jittered_ms(base as int, offset as int),
{
    let total: i128 = base as i128 + offset as i128;
    if total < 1 {
        1
    } else if total > u64::MAX as i128 {
        u64::MAX
    } else {
        total as u64
    }
}

/// The period given the draws: the base period when jitter is off, moved by
/// the uniform `offset` for the uniform curve, or by `gaussian_offset` of the
/// sample `z_micro` for the Gaussian curve.
pub open spec fn interval_for(rate: RateConfig, offset: int, z_micro: int) -> int {
    let base = base_interval_ms(rate);
    let max = rate.jitter_max_ms as int;
    if rate.jitter_enabled && max > 0 {
        match rate.jitter_curve {
            JitterCurve::Uniform => jittered_ms(base, offset),
            JitterCurve::Gaussian => jittered_ms(base, gaussian_offset(max, z_micro)),
        }
    } else {
        base
    }
}

/// The period given the draws (see `interval_for`).
pub fn interval_for_draw(rate: &RateConfig, offset: i64, z_micro: i64) -> (ms: u64)
    ensures
        ms as int == interval_for(*rate, offset as int, z_micro as int),
{
    let base = rate.base_interval();
    if rate.jitter_enabled && rate.jitter_max_ms > 0 {
        match rate.jitter_curve {
            JitterCurve::Uniform => jittered_interval(base, offset),
            JitterCurve::Gaussian => jittered_interval(base, gaussian_jitter(rate.jitter_max_ms, z_micro)),
        }
    } else {
        base
    }
}

/// The period until the next event, in milliseconds (see `interval_choice`):
/// `interval_for_draw` of an offset drawn uniformly with `fastrand` from
/// `uniform_offset_range` (for the uniform curve only) and of `z_micro`, a
/// standard normal sample in millionths (for the Gaussian curve only).
pub fn compute_interval(rate: &RateConfig, z_micro: i64) -> (ms: u64)
    ensures
        interval_choice(*rate, z_micro as int, ms as int),
{
    let uniform = rate.jitter_enabled && rate.jitter_max_ms > 0 && rate.jitter_curve
        == JitterCurve::Uniform;
    let offset = if uniform {
        let (lo, hi) = uniform_offset_range(rate.jitter_max_ms);
        random_i64_in(lo, hi)
    } else {
        0
    };
    let ms = interval_for_draw(rate, offset, z_micro);
    proof {
        if uniform {
            let max = rate.jitter_max_ms as int;
            assert(-max <= offset <= max && ms == jittered_ms(base_interval_ms(*rate), offset as int));
        }
    }
    ms
}

/// Whether the hold time `h` (ms between press and release) may be chosen:
/// 0 when jitter is off; otherwise within `[hold_min, max(hold_max, hold_min)]`.
pub open spec fn hold_choice(rate: RateConfig, h: int) -> bool {
    if rate.jitter_enabled {
        let max = if rate.hold_max_ms < rate.hold_min_ms {
            rate.hold_min_ms
        } else {
            rate.hold_max_ms
        };
        rate.hold_min_ms <= h <= max
    } else {
        h == 0
    }
}

/// The inclusive range a hold time is drawn from: from the minimum hold to
/// the maximum hold, raised to the minimum when below it.
pub fn hold_range(rate: &RateConfig) -> (r: (u32, u32))
    ensures
        r.0 == rate.hold_min_ms,
        r.1 == (if rate.hold_max_ms < rate.hold_min_ms {
            rate.hold_min_ms
        } else {
            rate.hold_max_ms
        }),
{
    let min = rate.hold_min_ms;
    let max = if rate.hold_max_ms < min {
        min
    } else {
        rate.hold_max_ms
    };
    (min, max)
}

/// The hold time given a draw: 0 when jitter is off; otherwise the draw when
/// the hold range spans more than one value, else the one value.
pub open spec fn hold_for(rate: RateConfig, draw: int) -> int {
    let max = if rate.hold_max_ms < rate.hold_min_ms {
        rate.hold_min_ms
    } else {
        rate.hold_max_ms
    };
    if !rate.jitter_enabled {
        0
    } else if max > rate.hold_min_ms {
        draw
    } else {
        rate.hold_min_ms as int
    }
}

/// The hold time given a draw (see `hold_for`).
pub fn hold_for_draw(rate: &RateConfig, draw: u32) -> (h: u32)
    ensures
        h as int == hold_for(*rate, draw as int),
{
    if !rate.jitter_enabled {
        return 0;
    }
    let (min, max) = hold_range(rate);
    if max > min {
        draw
    } else {
        min
    }
}

/// The press-to-release time for one event (see `hold_choice`):
/// `hold_for_draw` of a value drawn uniformly with `fastrand` from
/// `hold_range` when jitter is on and that range spans more than one value.
pub fn pick_hold_ms(rate: &RateConfig) -> (h: u32)
    ensures
        hold_choice(*rate, h as int),
{
    let (min, max) = hold_range(rate);
    let draw = if rate.jitter_enabled && max > min {
        random_u32_in(min, max)
    } else {
        min
    };
    hold_for_draw(rate, draw)
}

/// Whole milliseconds from `start` to `now` (0 when `now` is earlier).
pub open spec fn elapsed_ms(start_ns: u64, now_ns: u64) -> int {
    if now_ns >= start_ns {
        (now_ns - start_ns) / (NS_PER_MS as int)
    } else {
        0
    }
}

/// Whether the stop condition has been reached after `tick_count` events,
/// with the run started at `start_ns`: never; after `n > 0` events; or once
/// `ms` milliseconds have elapsed.
pub open spec fn stop_due(stop: StopAfter, tick_count: u64, start_ns: u64, now_ns: u64) -> bool {
    match stop {
        StopAfter::Never => false,
        StopAfter::Count { n } => n > 0 && tick_count >= n,
        StopAfter::Duration { ms } => elapsed_ms(start_ns, now_ns) >= ms,
    }
}

/// `now` plus `ms` milliseconds, saturating at the largest time.
pub open spec fn add_ms(now_ns: u64, ms: int) -> u64 {
    if now_ns + ms * NS_PER_MS > u64::MAX {
        u64::MAX
    } else {
        (now_ns + ms * NS_PER_MS) as u64
    }
}

pub fn deadline_after(now_ns: u64, ms: u64) -> (t: u64)
    ensures
        t == add_ms(now_ns, ms as int),
{
    assert((ms as int) * (NS_PER_MS as int) <= 0xFFFF_FFFF_FFFF_FFFF * 1_000_000) by (nonlinear_arith)
        requires
            ms <= 0xFFFF_FFFF_FFFF_FFFF,
            NS_PER_MS == 1_000_000,
    ;
    let span: u128 = (ms as u128) * (NS_PER_MS as u128);
    let total: u128 = now_ns as u128 + span;
    if total > u64::MAX as u128 {
        u64::MAX
    } else {
        total as u64
    }
}

/// An engine event as plain values.
pub enum EventView {
    Started,
    Stopped,
    HeldChanged(Seq<u16>),
    MouseHeldChanged(Seq<MouseButton>),
}

impl View for EngineEvent {
    type V = EventView;

    open spec fn view(&self) -> EventView {
        match self {
            EngineEvent::Started => EventView::Started,
            EngineEvent::Stopped => EventView::Stopped,
            EngineEvent::HeldChanged(v) => EventView::HeldChanged(v@),
            EngineEvent::MouseHeldChanged(v) => EventView::MouseHeldChanged(v@),
        }
    }
}

/// One step of outside work decided by the engine: input to inject, or an
/// event to report. The driver performs them in order.
#[derive(Debug, Clone)]
pub enum Effect {
    Input(InputOp),
    Emit(EngineEvent),
}

/// An effect as plain values.
pub enum EffectView {
    Input(InputOp),
    Emit(EventView),
}

impl View for Effect {
    type V = EffectView;

    open spec fn view(&self) -> EffectView {
        match self {
            Effect::Input(op) => EffectView::Input(*op),
            Effect::Emit(e) => EffectView::Emit(e@),
        }
    }
}

/// The effects as plain values, in order.
pub open spec fn effects_view(s: Seq<Effect>) -> Seq<EffectView>
    decreases s.len(),
{
    if s.len() == 0 {
        seq![]
    } else {
        effects_view(s.drop_last()).push(s.last()@)
    }
}

/// Input effects for the operations, in order.
pub open spec fn inputs(ops: Seq<InputOp>) -> Seq<EffectView>
    decreases ops.len(),
{
    if ops.len() == 0 {
        seq![]
    } else {
        inputs(ops.drop_last()).push(EffectView::Input(ops.last()))
    }
}

/// The report of one event.
pub open spec fn emits(e: EventView) -> Seq<EffectView> {
    seq![EffectView::Emit(e)]
}

proof fn lemma_effects_view_push(s: Seq<Effect>, e: Effect)
    ensures
        effects_view(s.push(e)) == effects_view(s).push(e@),
{
    assert(s.push(e).drop_last() =~= s);
}

proof fn lemma_inputs_concat(a: Seq<InputOp>, b: Seq<InputOp>)
    ensures
        inputs(a + b) == inputs(a) + inputs(b),
    decreases b.len(),
{
    if b.len() == 0 {
        assert(a + b =~= a);
        assert(inputs(a) + inputs(b) =~= inputs(a));
    } else {
        lemma_inputs_concat(a, b.drop_last());
        assert((a + b).drop_last() =~= a + b.drop_last());
        assert(inputs(a) + inputs(b) =~= (inputs(a) + inputs(b.drop_last())).push(
            EffectView::Input(b.last()),
        ));
    }
}

/// Appends the report of an event.
fn emit(out: &mut Vec<Effect>, e: EngineEvent)
    ensures
        effects_view(final(out)@) == effects_view(old(out)@) + emits(e@),
{
    let ghost old_out = out@;
    out.push(Effect::Emit(e));
    proof {
        lemma_effects_view_push(old_out, Effect::Emit(e));
        assert(effects_view(old_out).push(EffectView::Emit(e@)) =~= effects_view(old_out) + emits(
            e@,
        ));
    }
}

/// Appends an input effect for each operation, in order.
fn push_inputs(out: &mut Vec<Effect>, ops: &Vec<InputOp>)
    ensures
        effects_view(final(out)@) == effects_view(old(out)@) + inputs(ops@),
{
    let ghost out0 = out@;
    let mut i: usize = 0;
    while i < ops.len()
        invariant
            i <= ops.len(),
            effects_view(out@) == effects_view(out0) + inputs(ops@.take(i as int)),
        decreases ops.len() - i,
    {
        let ghost prev = out@;
        out.push(Effect::Input(ops[i]));
        proof {
            lemma_effects_view_push(prev, Effect::Input(ops[i as int]));
            assert(ops@.take(i + 1).drop_last() =~= ops@.take(i as int));
            assert(effects_view(out0) + inputs(ops@.take(i + 1)) =~= (effects_view(out0) + inputs(
                ops@.take(i as int),
            )).push(EffectView::Input(ops@[i as int])));
        }
        i += 1;
    }
    assert(ops@.take(ops.len() as int) =~= ops@);
}

/// `s` with `x` added at the end unless already there.
pub open spec fn seq_insert<A>(s: Seq<A>, x: A) -> Seq<A> {
    if s.contains(x) {
        s
    } else {
        s.push(x)
    }
}

/// `s` without the occurrences of `x`.
pub open spec fn seq_remove<A>(s: Seq<A>, x: A) -> Seq<A>
    decreases s.len(),
{
    if s.len() == 0 {
        s
    } else if s.last() == x {
        seq_remove(s.drop_last(), x)
    } else {
        seq_remove(s.drop_last(), x).push(s.last())
    }
}

/// A plain button release for each button, in order.
pub open spec fn button_ups(s: Seq<MouseButton>) -> Seq<InputOp>
    decreases s.len(),
{
    if s.len() == 0 {
        seq![]
    } else {
        button_ups(s.drop_last()).push(InputOp::ButtonUp { button: s.last() })
    }
}

/// Progress of a macro being played back.
pub struct MacroPlayState {
    pub macro_ref: Arc<Macro>,
    pub frame_idx: usize,
    pub loops_done: u32,
    pub loops_target: u32,
    /// Keys the playback has pressed and not released, in press order.
    pub held_keys: Vec<u16>,
    /// Mouse buttons the playback has pressed and not released, in press order.
    pub held_mouse_buttons: Vec<MouseButton>,
}

/// Keys held after playing `e`.
pub open spec fn keys_after(keys: Seq<u16>, e: MacroEvent) -> Seq<u16> {
    match e {
        MacroEvent::KeyDown { vk } => seq_insert(keys, vk),
        MacroEvent::KeyUp { vk } => seq_remove(keys, vk),
        _ => keys,
    }
}

/// Mouse buttons held after playing `e`.
pub open spec fn buttons_after(buttons: Seq<MouseButton>, e: MacroEvent) -> Seq<MouseButton> {
    match e {
        MacroEvent::MouseDown { button, .. } => seq_insert(buttons, button),
        MacroEvent::MouseUp { button, .. } => seq_remove(buttons, button),
        _ => buttons,
    }
}

/// The releases that end a playback: each held key, then each held button.
pub open spec fn playback_releases(ms: MacroPlayState) -> Seq<InputOp> {
    key_ups(ms.held_keys@) + button_ups(ms.held_mouse_buttons@)
}

fn insert_key(v: &mut Vec<u16>, x: u16)
    ensures
        final(v)@ == seq_insert(old(v)@, x),
{
    let mut i: usize = 0;
    while i < v.len()
        invariant
            i <= v.len(),
            forall|j: int| 0 <= j < i ==> v@[j] != x,
        decreases v.len() - i,
    {
        if v[i] == x {
            assert(v@.contains(x));
            return;
        }
        i += 1;
    }
    v.push(x);
}

fn remove_key(v: &mut Vec<u16>, x: u16)
    ensures
        final(v)@ == seq_remove(old(v)@, x),
{
    let mut r: Vec<u16> = Vec::new();
    let mut i: usize = 0;
    while i < v.len()
        invariant
            i <= v.len(),
            r@ == seq_remove(v@.take(i as int), x),
        decreases v.len() - i,
    {
        assert(v@.take(i + 1).drop_last() =~= v@.take(i as int));
        if v[i] != x {
            r.push(v[i]);
        }
        i += 1;
    }
    assert(v@.take(v.len() as int) =~= v@);
    *v = r;
}

fn insert_button(v: &mut Vec<MouseButton>, x: MouseButton)
    ensures
        final(v)@ == seq_insert(old(v)@, x),
{
    let mut i: usize = 0;
    while i < v.len()
        invariant
            i <= v.len(),
            forall|j: int| 0 <= j < i ==> v@[j] != x,
        decreases v.len() - i,
    {
        if v[i] == x {
            assert(v@.contains(x));
            return;
        }
        i += 1;
    }
    v.push(x);
}

fn remove_button(v: &mut Vec<MouseButton>, x: MouseButton)
    ensures
        final(v)@ == seq_remove(old(v)@, x),
{
    let mut r: Vec<MouseButton> = Vec::new();
    let mut i: usize = 0;
    while i < v.len()
        invariant
            i <= v.len(),
            r@ == seq_remove(v@.take(i as int), x),
        decreases v.len() - i,
    {
        assert(v@.take(i + 1).drop_last() =~= v@.take(i as int));
        if v[i] != x {
            r.push(v[i]);
        }
        i += 1;
    }
    assert(v@.take(v.len() as int) =~= v@);
    *v = r;
}

impl MacroPlayState {
    /// Records what a played event leaves held.
    pub fn track_event(&mut self, event: &MacroEvent)
        ensures
            final(self).held_keys@ == keys_after(old(self).held_keys@, *event),
            final(self).held_mouse_buttons@ == buttons_after(old(self).held_mouse_buttons@, *event),
            final(self).macro_ref == old(self).macro_ref,
            final(self).frame_idx == old(self).frame_idx,
            final(self).loops_done == old(self).loops_done,
            final(self).loops_target == old(self).loops_target,
    {
        match *event {
            MacroEvent::KeyDown { vk } => {
                insert_key(&mut self.held_keys, vk);
            },
            MacroEvent::KeyUp { vk } => {
                remove_key(&mut self.held_keys, vk);
            },
            MacroEvent::MouseDown { button, .. } => {
                insert_button(&mut self.held_mouse_buttons, button);
            },
            MacroEvent::MouseUp { button, .. } => {
                remove_button(&mut self.held_mouse_buttons, button);
            },
            MacroEvent::MouseMove { .. } => {},
        }
    }

    /// Releases everything the playback holds (see `playback_releases`).
    pub fn release_all(&mut self, out: &mut Vec<Effect>)
        ensures
            effects_view(final(out)@) == effects_view(old(out)@) + inputs(playback_releases(*old(self))),
            final(self).held_keys@ == Seq::<u16>::empty(),
            final(self).held_mouse_buttons@ == Seq::<MouseButton>::empty(),
            final(self).macro_ref == old(self).macro_ref,
            final(self).frame_idx == old(self).frame_idx,
            final(self).loops_done == old(self).loops_done,
            final(self).loops_target == old(self).loops_target,
    {
        let mut ops: Vec<InputOp> = Vec::new();
        let mut i: usize = 0;
        while i < self.held_keys.len()
            invariant
                i <= self.held_keys.len(),
                ops@ == key_ups(self.held_keys@.take(i as int)),
            decreases self.held_keys.len() - i,
        {
            assert(self.held_keys@.take(i + 1).drop_last() =~= self.held_keys@.take(i as int));
            ops.push(InputOp::KeyUp { vk: self.held_keys[i] });
            i += 1;
        }
        assert(self.held_keys@.take(self.held_keys.len() as int) =~= self.held_keys@);
        let ghost k = ops@;
        let mut j: usize = 0;
        while j < self.held_mouse_buttons.len()
            invariant
                j <= self.held_mouse_buttons.len(),
                ops@ == k + button_ups(self.held_mouse_buttons@.take(j as int)),
            decreases self.held_mouse_buttons.len() - j,
        {
            assert(self.held_mouse_buttons@.take(j + 1).drop_last()
                =~= self.held_mouse_buttons@.take(j as int));
            ops.push(InputOp::ButtonUp { button: self.held_mouse_buttons[j] });
            assert(ops@ =~= k + button_ups(self.held_mouse_buttons@.take(j + 1)));
            j += 1;
        }
        assert(self.held_mouse_buttons@.take(self.held_mouse_buttons.len() as int)
            =~= self.held_mouse_buttons@);
        push_inputs(out, &ops);
        self.held_keys = Vec::new();
        self.held_mouse_buttons = Vec::new();
    }
}

/// Calls `Arc::clone`. Trusted: the clone shares the same macro (std
/// documents that it makes another pointer to the same allocation).
#[verifier::external_body]
fn share_macro(m: &Arc<Macro>) -> (r: Arc<Macro>)
    ensures
        r == *m,
{
    Arc::clone(m)
}

/// Whether the tick loop is running, and where it stands.
pub struct RunState {
    pub is_running: bool,
    pub tick_count: u64,
    pub start_ns: u64,
    pub next_tick_ns: u64,
    pub macro_state: Option<MacroPlayState>,
}

/// Something is running or a playback is in progress.
pub open spec fn was_active(rs: RunState) -> bool {
    rs.is_running || rs.macro_state is Some
}

/// What stopping reports: the releases of an interrupted playback, then
/// `Stopped` when anything was active.
pub open spec fn stop_effects(rs: RunState) -> Seq<EffectView> {
    (match rs.macro_state {
        Some(ms) => inputs(playback_releases(ms)),
        None => seq![],
    }) + (if was_active(rs) {
        emits(EventView::Stopped)
    } else {
        seq![]
    })
}

/// What releasing all latches reports: the releases, then an empty held-key
/// list when keys were latched, then an empty held-button list when buttons
/// were latched.
pub open spec fn release_held_effects(h: HoldView) -> Seq<EffectView> {
    inputs(key_ups(h.keys) + latch_releases(h.mouse)) + (if h.keys.len() > 0 {
        emits(EventView::HeldChanged(seq![]))
    } else {
        seq![]
    }) + (if h.mouse.len() > 0 {
        emits(EventView::MouseHeldChanged(seq![]))
    } else {
        seq![]
    })
}

/// The run state after stopping: not running, no playback, counters kept.
pub open spec fn stopped(rs: RunState) -> RunState {
    RunState { is_running: false, macro_state: None, ..rs }
}

/// A latch action toggles a held button or key instead of running the tick
/// loop: a mouse action in hold mode (without repeat) or a key in hold mode.
pub open spec fn is_latch(a: Action) -> bool {
    match a {
        Action::MouseClick { mode, repeat_while_toggled, .. } => mode == TriggerMode::Hold
            && !repeat_while_toggled,
        Action::KeyTap { mode, .. } => mode == TriggerMode::Hold,
        Action::PlayMacro => false,
    }
}

/// The tick loop may start: it is not running, the action is not a latch,
/// and playback has a loaded macro with at least one frame.
pub open spec fn can_start(rs: RunState, action: Action, loaded: Option<Arc<Macro>>) -> bool {
    &&& !rs.is_running
    &&& !is_latch(action)
    &&& action is PlayMacro ==> (loaded is Some && loaded->0.frames@.len() > 0)
}

proof fn lemma_assoc3(a: Seq<EffectView>, b: Seq<EffectView>, c: Seq<EffectView>)
    ensures
        a + b + c == a + (b + c),
{
    assert(a + b + c =~= a + (b + c));
}

impl RunState {
    /// Idle, with both times set to `now_ns`.
    pub fn new(now_ns: u64) -> (rs: Self)
        ensures
            !rs.is_running,
            rs.tick_count == 0,
            rs.start_ns == now_ns,
            rs.next_tick_ns == now_ns,
            rs.macro_state is None,
    {
        RunState {
            is_running: false,
            tick_count: 0,
            start_ns: now_ns,
            next_tick_ns: now_ns,
            macro_state: None,
        }
    }

    /// Stops the tick loop and any playback (see `stop_effects`).
    pub fn stop(&mut self, out: &mut Vec<Effect>)
        ensures
            *final(self) == stopped(*old(self)),
            effects_view(final(out)@) == effects_view(old(out)@) + stop_effects(*old(self)),
    {
        let ghost e0 = effects_view(out@);
        let was_active = self.is_running || self.macro_state.is_some();
        self.is_running = false;
        let taken = self.macro_state.take();
        match taken {
            Some(mut ms) => {
                ms.release_all(out);
            },
            None => {},
        }
        let ghost e1 = effects_view(out@);
        if was_active {
            emit(out, EngineEvent::Stopped);
        }
        proof {
            lemma_assoc3(
                e0,
                e1.subrange(e0.len() as int, e1.len() as int),
                effects_view(out@).subrange(e1.len() as int, effects_view(out@).len() as int),
            );
            assert(effects_view(out@) =~= e0 + stop_effects(*old(self)));
        }
    }

    /// Stops everything, then releases every latch (see `stop_effects` and
    /// `release_held_effects`).
    pub fn stop_all(&mut self, held: &mut VirtualHold, out: &mut Vec<Effect>)
        ensures
            *final(self) == stopped(*old(self)),
            final(held)@.keys == Seq::<u16>::empty(),
            final(held)@.mouse == Seq::<(u8, isize)>::empty(),
            effects_view(final(out)@) == effects_view(old(out)@) + stop_effects(*old(self))
                + release_held_effects(old(held)@),
    {
        let ghost e0 = effects_view(out@);
        let ghost h0 = held@;
        self.stop(out);
        let ghost e1 = effects_view(out@);
        let had_keys = held.held_keys().len() > 0;
        let had_mouse = held.held_mouse_buttons().len() > 0;
        let mut ops: Vec<InputOp> = Vec::new();
        held.release_all(&mut ops);
        push_inputs(out, &ops);
        let ghost e2 = effects_view(out@);
        if had_keys {
            emit(out, EngineEvent::HeldChanged(Vec::new()));
        }
        let ghost e3 = effects_view(out@);
        if had_mouse {
            emit(out, EngineEvent::MouseHeldChanged(Vec::new()));
        }
        assert(ops@ =~= key_ups(h0.keys) + latch_releases(h0.mouse));
        assert(effects_view(out@) =~= e0 + stop_effects(*old(self)) + release_held_effects(h0));
    }
}

/// What `start_running` does, as a relation between the run state and
/// reported effects before and after: when `can_start` holds, the loop runs
/// from event 0 with the run started at `now_ns` and `Started` reported, the
/// first event due one period later — the first frame's delay for playback
/// (which begins at frame 0, loop 0, with nothing held), otherwise a period
/// chosen as `interval_choice` allows; when it does not, nothing changes.
pub open spec fn start_result(
    rs0: RunState,
    rs1: RunState,
    action: Action,
    loaded: Option<Arc<Macro>>,
    loops: u32,
    rate: RateConfig,
    now_ns: u64,
    z_micro: int,
    f0: Seq<EffectView>,
    f1: Seq<EffectView>,
) -> bool {
    if can_start(rs0, action, loaded) {
        &&& rs1.is_running
        &&& rs1.tick_count == 0
        &&& rs1.start_ns == now_ns
        &&& f1 == f0 + emits(EventView::Started)
        &&& if action is PlayMacro {
            &&& rs1.macro_state matches Some(ms)
            &&& ms.macro_ref == loaded->0
            &&& ms.frame_idx == 0
            &&& ms.loops_done == 0
            &&& ms.loops_target == loops
            &&& ms.held_keys@ == Seq::<u16>::empty()
            &&& ms.held_mouse_buttons@ == Seq::<MouseButton>::empty()
            &&& rs1.next_tick_ns == add_ms(now_ns, loaded->0.frames@[0].delta_ms as int)
        } else {
            &&& rs1.macro_state == rs0.macro_state
            &&& exists|ms: int|
                interval_choice(rate, z_micro, ms) && rs1.next_tick_ns == add_ms(now_ns, ms)
        }
    } else {
        rs1 == rs0 && f1 == f0
    }
}

/// Starts the tick loop (see `start_result`); returns whether it started.
pub fn start_running(
    rs: &mut RunState,
    action: &Action,
    loaded_macro: &Option<Arc<Macro>>,
    macro_loops: u32,
    cfg: &EngineConfig,
    now_ns: u64,
    z_micro: i64,
    out: &mut Vec<Effect>,
) -> (started: bool)
    ensures
        started == can_start(*old(rs), *action, *loaded_macro),
        start_result(
            *old(rs),
            *final(rs),
            *action,
            *loaded_macro,
            macro_loops,
            cfg.rate,
            now_ns,
            z_micro as int,
            effects_view(old(out)@),
            effects_view(final(out)@),
        ),
{
    if rs.is_running {
        return false;
    }
    let latch = match *action {
        Action::MouseClick { mode, repeat_while_toggled, .. } => mode == TriggerMode::Hold
            && !repeat_while_toggled,
        Action::KeyTap { mode, .. } => mode == TriggerMode::Hold,
        Action::PlayMacro => false,
    };
    if latch {
        return false;
    }
    if let Action::PlayMacro = *action {
        match loaded_macro {
            Some(m) => {
                if m.frames.len() == 0 {
                    return false;
                }
                let first_delay = m.frames[0].delta_ms as u64;
                rs.macro_state = Some(
                    MacroPlayState {
                        macro_ref: share_macro(m),
                        frame_idx: 0,
                        loops_done: 0,
                        loops_target: macro_loops,
                        held_keys: Vec::new(),
                        held_mouse_buttons: Vec::new(),
                    },
                );
                rs.next_tick_ns = deadline_after(now_ns, first_delay);
            },
            None => {
                return false;
            },
        }
    } else {
        let step = compute_interval(&cfg.rate, z_micro);
        rs.next_tick_ns = deadline_after(now_ns, step);
    }
    rs.is_running = true;
    rs.tick_count = 0;
    rs.start_ns = now_ns;
    emit(out, EngineEvent::Started);
    true
}

/// Rate and stop condition of the tick loop.
pub struct EngineConfig {
    pub rate: RateConfig,
    pub stop_after: StopAfter,
}

impl Default for EngineConfig {
    fn default() -> (c: Self)
        ensures
            c.rate == default_rate(),
            c.stop_after == StopAfter::Never,
    {
        EngineConfig { rate: RateConfig::default(), stop_after: StopAfter::Never }
    }
}

/// Whether the stop condition is reached at `now_ns` (see `stop_due`).
pub fn should_stop(stop_after: &StopAfter, rs: &RunState, now_ns: u64) -> (r: bool)
    ensures
        r == stop_due(*stop_after, rs.tick_count, rs.start_ns, now_ns),
{
    match *stop_after {
        StopAfter::Never => false,
        StopAfter::Count { n } => n > 0 && rs.tick_count >= n,
        StopAfter::Duration { ms } => {
            let elapsed = if now_ns >= rs.start_ns {
                (now_ns - rs.start_ns) / NS_PER_MS
            } else {
                0
            };
            elapsed >= ms
        },
    }
}

/// The engine: its settings, the tick loop, the latches, and the loaded macro.
/// A driver feeds it commands and clock ticks and performs the effects it
/// hands back; see `handle_command`, `tick` and `finish_tick`.
pub struct Engine {
    pub cfg: EngineConfig,
    pub action: Action,
    pub rs: RunState,
    pub held: VirtualHold,
    pub loaded_macro: Option<Arc<Macro>>,
    pub macro_loops: u32,
    /// An event's input was handed out by `tick`; `finish_tick` completes it.
    pub dispatched: bool,
}

/// Settings, action and loaded macro are the same in both.
pub open spec fn settings_same(a: Engine, b: Engine) -> bool {
    &&& a.cfg == b.cfg
    &&& a.action == b.action
    &&& a.loaded_macro == b.loaded_macro
    &&& a.macro_loops == b.macro_loops
}

/// Stopping everything and releasing every latch (see `stop_effects` and
/// `release_held_effects`), as a relation between engines and effects.
pub open spec fn stopped_all(e0: Engine, e1: Engine, f0: Seq<EffectView>, f1: Seq<EffectView>) -> bool {
    &&& e1.rs == stopped(e0.rs)
    &&& e1.held@.keys == Seq::<u16>::empty()
    &&& e1.held@.mouse == Seq::<(u8, isize)>::empty()
    &&& f1 == f0 + stop_effects(e0.rs) + release_held_effects(e0.held@)
}

/// Starting the tick loop for the engine's own action (see `start_result`),
/// latches untouched.
pub open spec fn started_loop(
    e0: Engine,
    e1: Engine,
    now_ns: u64,
    z_micro: int,
    f0: Seq<EffectView>,
    f1: Seq<EffectView>,
) -> bool {
    &&& start_result(
        e0.rs,
        e1.rs,
        e0.action,
        e0.loaded_macro,
        e0.macro_loops,
        e0.cfg.rate,
        now_ns,
        z_micro,
        f0,
        f1,
    )
    &&& e1.held@ == e0.held@
}

/// Toggling the latch of a mouse button (see `VirtualHold::toggle_mouse`),
/// then reporting the latched buttons.
pub open spec fn toggled_mouse(
    h0: HoldView,
    h1: HoldView,
    button: MouseButton,
    f0: Seq<EffectView>,
    f1: Seq<EffectView>,
) -> bool {
    let b = button_byte(button);
    &&& h1.keys == h0.keys
    &&& if has_byte(h0.mouse, b) {
        &&& h1.mouse == without_byte(h0.mouse, b)
        &&& f1 == f0 + inputs(seq![InputOp::HoldButtonUp { button, target: target_of(h0.mouse, b) }])
            + emits(EventView::MouseHeldChanged(latched_buttons(h1.mouse)))
    } else {
        &&& h1.mouse == h0.mouse.push((b, 0isize))
        &&& f1 == f0 + inputs(seq![InputOp::HoldButtonDown { button }]) + emits(
            EventView::MouseHeldChanged(latched_buttons(h1.mouse)),
        )
    }
}

/// Toggling the latch of a key combo (see `VirtualHold::toggle_combo`),
/// then reporting the latched keys in ascending order.
pub open spec fn toggled_combo(
    h0: HoldView,
    h1: HoldView,
    vk: u16,
    mods: KeyMods,
    f0: Seq<EffectView>,
    f1: Seq<EffectView>,
) -> bool {
    let c = combo_keys(vk, mods);
    &&& h1.mouse == h0.mouse
    &&& if !h0.keys.contains(vk) {
        &&& h1.keys == h0.keys + not_in(c, h0.keys)
        &&& f1 == f0 + inputs(key_downs(not_in(c, h0.keys))) + emits(
            EventView::HeldChanged(sorted_keys(h1.keys)),
        )
    } else {
        &&& h1.keys == not_in(h0.keys, c)
        &&& f1 == f0 + inputs(key_ups(only_in(c.reverse(), h0.keys))) + emits(
            EventView::HeldChanged(sorted_keys(h1.keys)),
        )
    }
}

/// What the hotkey toggle does: for a latch action, toggle its latch (the
/// mouse button, or the key combo) with the loop untouched; otherwise stop
/// everything when running, or start the loop when not.
pub open spec fn toggled(
    e0: Engine,
    e1: Engine,
    now_ns: u64,
    z_micro: int,
    f0: Seq<EffectView>,
    f1: Seq<EffectView>,
) -> bool {
    if is_latch(e0.action) {
        &&& e1.rs == e0.rs
        &&& match e0.action {
            Action::MouseClick { button, .. } => toggled_mouse(e0.held@, e1.held@, button, f0, f1),
            Action::KeyTap { vk, mods, .. } => toggled_combo(e0.held@, e1.held@, vk, mods, f0, f1),
            Action::PlayMacro => false,
        }
    } else if e0.rs.is_running {
        stopped_all(e0, e1, f0, f1)
    } else {
        started_loop(e0, e1, now_ns, z_micro, f0, f1)
    }
}

/// The input of one event of a loop action, pressed for `h` ms: clicks of
/// the pattern for an auto mouse action, one click for a repeating hold
/// mouse action, a key tap for an auto key action; none for latch actions
/// and playback.
pub open spec fn loop_op(a: Action, h: u32) -> Option<InputOp> {
    match a {
        Action::MouseClick { button, pattern, target, mode, repeat_while_toggled } => {
            if mode == TriggerMode::Auto {
                Some(InputOp::Click { button, pattern, target, hold_ms: h })
            } else if repeat_while_toggled {
                Some(InputOp::Click { button, pattern: ClickPattern::Single, target, hold_ms: h })
            } else {
                None
            }
        },
        Action::KeyTap { vk, mods, mode } => {
            if mode == TriggerMode::Auto {
                Some(InputOp::KeyTap { vk, mods, hold_ms: h })
            } else {
                None
            }
        },
        Action::PlayMacro => None,
    }
}

/// The event after `x`, wrapping to 0 after the largest count.
pub open spec fn next_count(x: u64) -> u64 {
    if x == u64::MAX {
        0
    } else {
        (x + 1) as u64
    }
}

/// Playback state `ms1` is `ms0` after playing frame `frame_idx` of its
/// macro: that frame's event tracked and the frame index advanced.
pub open spec fn played_frame(ms0: MacroPlayState, ms1: MacroPlayState) -> bool {
    let e = ms0.macro_ref.frames@[ms0.frame_idx as int].event;
    &&& ms1.macro_ref == ms0.macro_ref
    &&& ms1.frame_idx == ms0.frame_idx + 1
    &&& ms1.loops_done == ms0.loops_done
    &&& ms1.loops_target == ms0.loops_target
    &&& ms1.held_keys@ == keys_after(ms0.held_keys@, e)
    &&& ms1.held_mouse_buttons@ == buttons_after(ms0.held_mouse_buttons@, e)
}

/// An event is due: the loop runs and its deadline has come.
pub open spec fn tick_due(rs: RunState, now_ns: u64) -> bool {
    rs.is_running && now_ns >= rs.next_tick_ns
}

/// What `tick` decides at `now_ns`. Nothing when no event is due. When the
/// stop condition is reached, everything stops. Otherwise, for a loop
/// action, one event's input (with a hold time as `hold_choice` allows) is
/// handed out; a latch action stops everything instead. For playback, with
/// no playback state everything stops; with an empty macro the playback is
/// released and `Stopped` reported; otherwise the current frame's event is
/// handed out and tracked (unless every frame has been played). An event
/// handed out leaves `dispatched` set for `finish_tick`.
pub open spec fn ticked(
    e0: Engine,
    e1: Engine,
    now_ns: u64,
    f0: Seq<EffectView>,
    f1: Seq<EffectView>,
    handed_out: bool,
) -> bool {
    if !tick_due(e0.rs, now_ns) {
        e1 == e0 && f1 == f0 && !handed_out
    } else if stop_due(e0.cfg.stop_after, e0.rs.tick_count, e0.rs.start_ns, now_ns) {
        stopped_all(e0, e1, f0, f1) && !handed_out && e1.dispatched == e0.dispatched
    } else if e0.action is PlayMacro {
        match e0.rs.macro_state {
            None => stopped_all(e0, e1, f0, f1) && !handed_out && e1.dispatched == e0.dispatched,
            Some(ms) => if ms.macro_ref.frames@.len() == 0 {
                &&& e1.rs == stopped(e0.rs)
                &&& e1.held@ == e0.held@
                &&& f1 == f0 + inputs(playback_releases(ms)) + emits(EventView::Stopped)
                &&& !handed_out
                &&& e1.dispatched == e0.dispatched
            } else {
                &&& handed_out
                &&& e1.dispatched
                &&& e1.held@ == e0.held@
                &&& e1.rs.is_running && e1.rs.tick_count == e0.rs.tick_count
                &&& e1.rs.start_ns == e0.rs.start_ns && e1.rs.next_tick_ns == e0.rs.next_tick_ns
                &&& if ms.frame_idx < ms.macro_ref.frames@.len() {
                    &&& e1.rs.macro_state matches Some(ms1) && played_frame(ms, ms1)
                    &&& f1 == f0 + inputs(
                        event_ops(ms.macro_ref.frames@[ms.frame_idx as int].event),
                    )
                } else {
                    e1.rs.macro_state == e0.rs.macro_state && f1 == f0
                }
            },
        }
    } else if is_latch(e0.action) {
        stopped_all(e0, e1, f0, f1) && !handed_out && e1.dispatched == e0.dispatched
    } else {
        &&& handed_out
        &&& e1.dispatched
        &&& e1.rs == e0.rs
        &&& e1.held@ == e0.held@
        &&& exists|h: u32|
            hold_choice(e0.cfg.rate, h as int) && f1 == f0 + inputs(seq![loop_op(e0.action, h)->0])
    }
}

/// The delay before the next frame of a playback: the frame's delay (at
/// least 1 ms), and at least 50 ms when playback wraps to a new loop.
pub open spec fn frame_delay_ms(delta_ms: u32, wrapped: bool) -> int {
    let d = if delta_ms < 1 {
        1
    } else {
        delta_ms as int
    };
    if wrapped && d < MACRO_LOOP_GAP_MS {
        MACRO_LOOP_GAP_MS as int
    } else {
        d
    }
}

/// The next deadline of a loop action: one period after the previous
/// deadline, or one period after `now_ns` when that is already past.
pub open spec fn next_deadline(prev_ns: u64, now_ns: u64, step_ms: int) -> u64 {
    if add_ms(prev_ns, step_ms) < now_ns {
        add_ms(now_ns, step_ms)
    } else {
        add_ms(prev_ns, step_ms)
    }
}

/// The run state with the event count advanced and the playback dropped,
/// no longer running.
pub open spec fn finished_run(rs: RunState) -> RunState {
    RunState { is_running: false, tick_count: next_count(rs.tick_count), macro_state: None, ..rs }
}

/// What `finish_tick` decides at `now_ns`, once the handed-out input has
/// been performed. Nothing but clearing `dispatched` unless an event was
/// handed out and the loop still runs. Then the event is counted, and: when
/// the stop condition is reached, everything stops (for playback: the
/// playback is released and `Stopped` reported). Otherwise a loop action is
/// scheduled one period (as `interval_choice` allows) after its previous
/// deadline (`next_deadline`); a playback of an empty macro ends; one that has played its last frame
/// ends when its loop target (if not 0) is reached, and otherwise wraps to
/// frame 0; its next frame is scheduled `frame_delay_ms` after `now_ns`.
pub open spec fn finished(
    e0: Engine,
    e1: Engine,
    now_ns: u64,
    z_micro: int,
    f0: Seq<EffectView>,
    f1: Seq<EffectView>,
) -> bool {
    &&& !e1.dispatched
    &&& settings_same(e0, e1)
    &&& if !(e0.dispatched && e0.rs.is_running) {
        e1.rs == e0.rs && e1.held@ == e0.held@ && f1 == f0
    } else {
        let tc = next_count(e0.rs.tick_count);
        let due = stop_due(e0.cfg.stop_after, tc, e0.rs.start_ns, now_ns);
        if e0.action is PlayMacro {
            match e0.rs.macro_state {
                None => e1.rs == RunState { tick_count: tc, ..e0.rs } && e1.held@ == e0.held@ && f1 == f0,
                Some(ms) => {
                    let n = ms.macro_ref.frames@.len();
                    let done = if ms.loops_done == u32::MAX { 0 } else { ms.loops_done + 1 };
                    let ends = due || n == 0 || (ms.frame_idx >= n && ms.loops_target > 0 && done >= ms.loops_target);
                    &&& e1.held@ == e0.held@
                    &&& if ends {
                        &&& e1.rs == finished_run(e0.rs)
                        &&& f1 == f0 + inputs(playback_releases(ms)) + emits(EventView::Stopped)
                    } else {
                        let wrapped = ms.frame_idx >= n;
                        let idx: int = if wrapped { 0 } else { ms.frame_idx as int };
                        &&& f1 == f0
                        &&& e1.rs.is_running && e1.rs.tick_count == tc && e1.rs.start_ns == e0.rs.start_ns
                        &&& e1.rs.next_tick_ns == add_ms(now_ns, frame_delay_ms(ms.macro_ref.frames@[idx].delta_ms, wrapped))
                        &&& e1.rs.macro_state == Some(MacroPlayState {
                            frame_idx: idx as usize,
                            loops_done: if wrapped { done as u32 } else { ms.loops_done },
                            ..ms
                        })
                    }
                },
            }
        } else if due {
            stopped_all(Engine { rs: RunState { tick_count: tc, ..e0.rs }, ..e0 }, e1, f0, f1)
        } else {
            &&& f1 == f0
            &&& e1.held@ == e0.held@
            &&& e1.rs.is_running && e1.rs.tick_count == tc && e1.rs.start_ns == e0.rs.start_ns
            &&& e1.rs.macro_state == e0.rs.macro_state
            &&& exists|step: int|
                interval_choice(e0.cfg.rate, z_micro, step) && e1.rs.next_tick_ns == next_deadline(e0.rs.next_tick_ns, now_ns, step)
        }
    }
}

impl Engine {
    /// Idle, with the default settings and action, nothing latched, no macro
    /// loaded, and playback set to one loop.
    pub fn new(now_ns: u64) -> (e: Self)
        ensures
            e.cfg.rate == default_rate(),
            e.cfg.stop_after == StopAfter::Never,
            e.action == default_action(),
            !e.rs.is_running,
            e.rs.tick_count == 0,
            e.rs.start_ns == now_ns,
            e.rs.next_tick_ns == now_ns,
            e.rs.macro_state is None,
            e.held@.keys == Seq::<u16>::empty(),
            e.held@.mouse == Seq::<(u8, isize)>::empty(),
            e.loaded_macro is None,
            e.macro_loops == 1,
            !e.dispatched,
    {
        Engine {
            cfg: EngineConfig::default(),
            action: Action::default(),
            rs: RunState::new(now_ns),
            held: VirtualHold::new(),
            loaded_macro: None,
            macro_loops: 1,
            dispatched: false,
        }
    }

    fn stop_all(&mut self, out: &mut Vec<Effect>)
        ensures
            stopped_all(*old(self), *final(self), effects_view(old(out)@), effects_view(final(out)@)),
            settings_same(*old(self), *final(self)),
            final(self).dispatched == old(self).dispatched,
    {
        self.rs.stop_all(&mut self.held, out);
    }

    fn start(&mut self, now_ns: u64, z_micro: i64, out: &mut Vec<Effect>)
        ensures
            started_loop(*old(self), *final(self), now_ns, z_micro as int, effects_view(old(out)@), effects_view(final(out)@)),
            settings_same(*old(self), *final(self)),
            final(self).dispatched == old(self).dispatched,
    {
        start_running(
            &mut self.rs,
            &self.action,
            &self.loaded_macro,
            self.macro_loops,
            &self.cfg,
            now_ns,
            z_micro,
            out,
        );
    }

    /// Handles one command at `now_ns`; `z_micro` is a standard normal
    /// sample in millionths, used only if the loop starts with Gaussian
    /// jitter. Returns `false` for `Shutdown` (the driver then exits) and
    /// `true` otherwise.
    pub fn handle_command(&mut self, cmd: Command, now_ns: u64, z_micro: i64, out: &mut Vec<Effect>) -> (keep_going: bool)
        ensures
            keep_going == !(cmd is Shutdown),
            final(self).dispatched == old(self).dispatched,
            ({
                let e0 = *old(self);
                let e1 = *final(self);
                let f0 = effects_view(old(out)@);
                let f1 = effects_view(final(out)@);
                match cmd {
                    Command::Start => settings_same(e0, e1) && started_loop(e0, e1, now_ns, z_micro as int, f0, f1),
                    Command::Stop => settings_same(e0, e1) && stopped_all(e0, e1, f0, f1),
                    Command::Toggle => settings_same(e0, e1) && toggled(e0, e1, now_ns, z_micro as int, f0, f1),
                    Command::SetAction(a) => {
                        &&& e1.action == a
                        &&& e1.cfg == e0.cfg && e1.loaded_macro == e0.loaded_macro && e1.macro_loops == e0.macro_loops
                        &&& stopped_all(e0, e1, f0, f1)
                    },
                    Command::SetRate(r) => {
                        &&& e1.cfg.rate == normalized_rate(r)
                        &&& e1.cfg.stop_after == e0.cfg.stop_after
                        &&& e1.action == e0.action && e1.loaded_macro == e0.loaded_macro && e1.macro_loops == e0.macro_loops
                        &&& e1.rs == e0.rs && e1.held@ == e0.held@ && f1 == f0
                    },
                    Command::SetStopAfter(st) => {
                        &&& e1.cfg.stop_after == st
                        &&& e1.cfg.rate == e0.cfg.rate
                        &&& e1.action == e0.action && e1.loaded_macro == e0.loaded_macro && e1.macro_loops == e0.macro_loops
                        &&& e1.rs == e0.rs && e1.held@ == e0.held@ && f1 == f0
                    },
                    Command::LoadMacro(m) => {
                        &&& e1.loaded_macro == Some(m)
                        &&& e1.cfg == e0.cfg && e1.action == e0.action && e1.macro_loops == e0.macro_loops
                        &&& e1.rs == e0.rs && e1.held@ == e0.held@ && f1 == f0
                    },
                    Command::SetMacroLoops(n) => {
                        &&& e1.macro_loops == n
                        &&& e1.cfg == e0.cfg && e1.action == e0.action && e1.loaded_macro == e0.loaded_macro
                        &&& e1.held@ == e0.held@ && f1 == f0
                        &&& e1.rs.is_running == e0.rs.is_running && e1.rs.tick_count == e0.rs.tick_count
                        &&& e1.rs.start_ns == e0.rs.start_ns && e1.rs.next_tick_ns == e0.rs.next_tick_ns
                        &&& match e0.rs.macro_state {
                            None => e1.rs.macro_state is None,
                            Some(ms) => e1.rs.macro_state == Some(MacroPlayState { loops_target: n, ..ms }),
                        }
                    },
                    Command::ClearMacro => {
                        &&& e1.loaded_macro is None
                        &&& e1.cfg == e0.cfg && e1.action == e0.action && e1.macro_loops == e0.macro_loops
                        &&& if e0.action is PlayMacro {
                            stopped_all(e0, e1, f0, f1)
                        } else {
                            e1.rs == e0.rs && e1.held@ == e0.held@ && f1 == f0
                        }
                    },
                    Command::Shutdown => settings_same(e0, e1) && stopped_all(e0, e1, f0, f1),
                }
            }),
    {
        match cmd {
            Command::Start => {
                self.start(now_ns, z_micro, out);
            },
            Command::Stop => self.stop_all(out),
            Command::Toggle => {
                match self.action {
                    Action::MouseClick { mode: TriggerMode::Hold, repeat_while_toggled: false, button, .. } => {
                        let mut ops: Vec<InputOp> = Vec::new();
                        self.held.toggle_mouse(button, &mut ops);
                        push_inputs(out, &ops);
                        let buttons = self.held.held_mouse_buttons();
                        emit(out, EngineEvent::MouseHeldChanged(buttons));
                        proof {
                            let f0 = effects_view(old(out)@);
                            assert(ops@ =~= seq![ops@[0]]);
                        }
                    },
                    Action::KeyTap { mode: TriggerMode::Hold, vk, mods } => {
                        let mut ops: Vec<InputOp> = Vec::new();
                        self.held.toggle_combo(vk, mods, &mut ops);
                        push_inputs(out, &ops);
                        let keys = self.held.held_keys();
                        emit(out, EngineEvent::HeldChanged(keys));
                    },
                    _ => {
                        if self.rs.is_running {
                            self.stop_all(out);
                        } else {
                            self.start(now_ns, z_micro, out);
                        }
                    },
                }
            },
            Command::SetAction(a) => {
                self.action = a;
                self.stop_all(out);
            },
            Command::SetRate(r) => self.cfg.rate = r.normalized(),
            Command::SetStopAfter(st) => self.cfg.stop_after = st,
            Command::LoadMacro(m) => self.loaded_macro = Some(m),
            Command::SetMacroLoops(n) => {
                self.macro_loops = n;
                if let Some(ref mut ms) = self.rs.macro_state {
                    ms.loops_target = n;
                }
            },
            Command::ClearMacro => {
                self.loaded_macro = None;
                if let Action::PlayMacro = self.action {
                    self.stop_all(out);
                }
            },
            Command::Shutdown => {
                self.stop_all(out);
                return false;
            },
        }
        true
    }

    /// Decides what to do when the clock reaches `now_ns` (see `ticked`).
    /// Returns whether an event's input was handed out, in which case the
    /// driver performs the effects and then calls `finish_tick`.
    pub fn tick(&mut self, now_ns: u64, out: &mut Vec<Effect>) -> (handed_out: bool)
        ensures
            ticked(*old(self), *final(self), now_ns, effects_view(old(out)@), effects_view(final(out)@), handed_out),
            settings_same(*old(self), *final(self)),
    {
        if !self.rs.is_running || now_ns < self.rs.next_tick_ns {
            return false;
        }
        if should_stop(&self.cfg.stop_after, &self.rs, now_ns) {
            self.stop_all(out);
            return false;
        }
        let hold_ms = pick_hold_ms(&self.cfg.rate);
        let op = match self.action {
            Action::MouseClick { button, pattern, target, mode: TriggerMode::Auto, .. } => {
                Some(InputOp::Click { button, pattern, target, hold_ms })
            },
            Action::MouseClick { button, target, mode: TriggerMode::Hold, repeat_while_toggled: true, .. } => {
                Some(InputOp::Click { button, pattern: ClickPattern::Single, target, hold_ms })
            },
            Action::KeyTap { vk, mods, mode: TriggerMode::Auto } => {
                Some(InputOp::KeyTap { vk, mods, hold_ms })
            },
            _ => None,
        };
        match op {
            Some(op) => {
                let ghost f0 = effects_view(out@);
                let ops = vec![op];
                push_inputs(out, &ops);
                assert(ops@ =~= seq![loop_op(self.action, hold_ms)->0]);
                self.dispatched = true;
                return true;
            },
            None => {},
        }
        if let Action::PlayMacro = self.action {
        } else {
            self.stop_all(out);
            return false;
        }
        let taken = self.rs.macro_state.take();
        match taken {
            None => {
                self.stop_all(out);
                false
            },
            Some(mut ms) => {
                let n = ms.macro_ref.frames.len();
                if n == 0 {
                    ms.release_all(out);
                    self.rs.is_running = false;
                    emit(out, EngineEvent::Stopped);
                    return false;
                }
                if ms.frame_idx < n {
                    let event = ms.macro_ref.frames[ms.frame_idx].event;
                    let ops = play_event(&event);
                    push_inputs(out, &ops);
                    ms.track_event(&event);
                    ms.frame_idx = ms.frame_idx + 1;
                }
                self.rs.macro_state = Some(ms);
                self.dispatched = true;
                true
            },
        }
    }

    /// Completes an event handed out by `tick`, with the clock at `now_ns`
    /// after its input was performed (see `finished`); `z_micro` is a
    /// standard normal sample in millionths for Gaussian jitter.
    pub fn finish_tick(&mut self, now_ns: u64, z_micro: i64, out: &mut Vec<Effect>)
        ensures
            finished(*old(self), *final(self), now_ns, z_micro as int, effects_view(old(out)@), effects_view(final(out)@)),
    {
        if !(self.dispatched && self.rs.is_running) {
            self.dispatched = false;
            return;
        }
        self.dispatched = false;
        if let Action::PlayMacro = self.action {
            let taken = self.rs.macro_state.take();
            match taken {
                None => {
                    self.rs.tick_count = self.rs.tick_count.wrapping_add(1);
                },
                Some(mut ms) => {
                    self.rs.tick_count = self.rs.tick_count.wrapping_add(1);
                    if should_stop(&self.cfg.stop_after, &self.rs, now_ns) {
                        ms.release_all(out);
                        self.rs.is_running = false;
                        emit(out, EngineEvent::Stopped);
                        return;
                    }
                    let n = ms.macro_ref.frames.len();
                    if n == 0 {
                        ms.release_all(out);
                        self.rs.is_running = false;
                        emit(out, EngineEvent::Stopped);
                        return;
                    }
                    let mut wrapped = false;
                    if ms.frame_idx >= n {
                        ms.loops_done = ms.loops_done.wrapping_add(1);
                        if ms.loops_target > 0 && ms.loops_done >= ms.loops_target {
                            ms.release_all(out);
                            self.rs.is_running = false;
                            emit(out, EngineEvent::Stopped);
                            return;
                        }
                        ms.frame_idx = 0;
                        wrapped = true;
                    }
                    let d = ms.macro_ref.frames[ms.frame_idx].delta_ms;
                    let delta: u64 = if d < 1 { 1 } else { d as u64 };
                    let delay: u64 = if wrapped && delta < MACRO_LOOP_GAP_MS { MACRO_LOOP_GAP_MS } else { delta };
                    self.rs.next_tick_ns = deadline_after(now_ns, delay);
                    self.rs.macro_state = Some(ms);
                },
            }
            return;
        }
        self.rs.tick_count = self.rs.tick_count.wrapping_add(1);
        if should_stop(&self.cfg.stop_after, &self.rs, now_ns) {
            self.stop_all(out);
            return;
        }
        let step = compute_interval(&self.cfg.rate, z_micro);
        let mut next = deadline_after(self.rs.next_tick_ns, step);
        if next < now_ns {
            next = deadline_after(now_ns, step);
        }
        self.rs.next_tick_ns = next;
    }
}

} // verus!
