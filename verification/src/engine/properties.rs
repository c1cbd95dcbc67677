use vstd::prelude::*;

use super::command::{
    base_interval_ms, effective_cps_milli, Action, ClickPattern, JitterCurve, KeyMods, MouseButton,
    RateConfig, StopAfter, Target, TriggerMode,
};
use super::input::InputOp;
use super::macros::event_ops;
use super::scheduler::{
    add_ms, can_start, frame_delay_ms, next_count, elapsed_ms, emits, finished, gaussian_offset, inputs, interval_choice, is_latch, hold_choice, loop_op,
    jittered_ms, playback_releases, release_held_effects, settings_same, stop_due, stop_effects,
    stopped_all, tick_due, ticked, toggled, Engine, EventView, EffectView, MacroPlayState,
};
use super::virtual_hold::{
    button_byte, combo_keys, has_byte, key_downs, key_ups, latched_buttons, lemma_combo_round_trip,
    lemma_mouse_round_trip, sorted_keys, with_target, HoldView,
};

verus! {

/// The start/stop hotkey of a looping action: from idle, a press starts the
/// loop (reporting `Started`, latches untouched) and the next press stops
/// it, ends any playback and releases every latch, reporting what was
/// released and `Stopped`.
pub proof fn lemma_toggle_starts_then_stops(
    e0: Engine,
    e1: Engine,
    e2: Engine,
    t1: u64,
    t2: u64,
    z1: int,
    z2: int,
    f0: Seq<EffectView>,
    f1: Seq<EffectView>,
    f2: Seq<EffectView>,
)
    requires
        !is_latch(e0.action),
        !e0.rs.is_running,
        can_start(e0.rs, e0.action, e0.loaded_macro),
        toggled(e0, e1, t1, z1, f0, f1),
        settings_same(e0, e1),
        toggled(e1, e2, t2, z2, f1, f2),
    ensures
        e1.rs.is_running,
        e1.held@ == e0.held@,
        f1 == f0 + emits(EventView::Started),
        !e2.rs.is_running,
        e2.rs.macro_state is None,
        e2.held@.keys.len() == 0,
        e2.held@.mouse.len() == 0,
        f2 == f1 + stop_effects(e1.rs) + release_held_effects(e1.held@),
        stop_effects(e1.rs).last() == EffectView::Emit(EventView::Stopped),
{
    assert(stop_effects(e1.rs).last() == EffectView::Emit(EventView::Stopped));
}

/// Hold mode on a key combo none of whose keys is held: the first press of
/// the hotkey presses the combo's keys (modifiers first) and reports them
/// held; the second releases the same keys in reverse order and reports the
/// keys held before. Both leave the loop and the mouse latches alone.
pub proof fn lemma_hold_combo_press_twice(
    e0: Engine,
    e1: Engine,
    e2: Engine,
    vk: u16,
    mods: KeyMods,
    t1: u64,
    t2: u64,
    z1: int,
    z2: int,
    f0: Seq<EffectView>,
    f1: Seq<EffectView>,
    f2: Seq<EffectView>,
)
    requires
        e0.action == (Action::KeyTap { vk, mods, mode: TriggerMode::Hold }),
        forall|i: int|
            0 <= i < combo_keys(vk, mods).len() ==> !e0.held@.keys.contains(
                #[trigger] combo_keys(vk, mods)[i],
            ),
        toggled(e0, e1, t1, z1, f0, f1),
        settings_same(e0, e1),
        toggled(e1, e2, t2, z2, f1, f2),
    ensures
        e1.held@.keys == e0.held@.keys + combo_keys(vk, mods),
        f1 == f0 + inputs(key_downs(combo_keys(vk, mods))) + emits(
            EventView::HeldChanged(sorted_keys(e1.held@.keys)),
        ),
        e2.held@ == e0.held@,
        f2 == f1 + inputs(key_ups(combo_keys(vk, mods).reverse())) + emits(
            EventView::HeldChanged(sorted_keys(e0.held@.keys)),
        ),
        e1.rs == e0.rs,
        e2.rs == e0.rs,
{
    lemma_combo_round_trip(e0.held@.keys, vk, mods);
    assert(e2.held@ == e0.held@);
}

/// Hold mode on a mouse button that is not latched: the first press of the
/// hotkey latches the button down and reports it held; once the window the
/// press went to is noted, the second press releases the button on that
/// window and the latches are as before. Both leave the loop and the key
/// latches alone.
pub proof fn lemma_hold_mouse_press_twice(
    e0: Engine,
    e1: Engine,
    e1_noted: Engine,
    e2: Engine,
    button: MouseButton,
    window: isize,
    t1: u64,
    t2: u64,
    z1: int,
    z2: int,
    f0: Seq<EffectView>,
    f1: Seq<EffectView>,
    f2: Seq<EffectView>,
)
    requires
        e0.action matches Action::MouseClick { button: b, mode: TriggerMode::Hold, repeat_while_toggled: false, .. }
            && b == button,
        !has_byte(e0.held@.mouse, button_byte(button)),
        toggled(e0, e1, t1, z1, f0, f1),
        settings_same(e0, e1),
        e1_noted == (Engine { held: e1_noted.held, ..e1 }),
        e1_noted.held@ == (HoldView {
            mouse: with_target(e1.held@.mouse, button_byte(button), window),
            ..e1.held@
        }),
        toggled(e1_noted, e2, t2, z2, f1, f2),
    ensures
        f1 == f0 + inputs(seq![InputOp::HoldButtonDown { button }]) + emits(
            EventView::MouseHeldChanged(latched_buttons(e1.held@.mouse)),
        ),
        e2.held@ == e0.held@,
        f2 == f1 + inputs(seq![InputOp::HoldButtonUp { button, target: window }]) + emits(
            EventView::MouseHeldChanged(latched_buttons(e0.held@.mouse)),
        ),
        e1.rs == e0.rs,
        e2.rs == e0.rs,
{
    lemma_mouse_round_trip(e0.held@.mouse, button_byte(button), window);
    assert(e2.held@ == e0.held@);
}

/// A count-limited run never hands out more events than its limit: once
/// `n` events are done, the next due tick stops everything instead.
pub proof fn lemma_count_limit(
    e0: Engine,
    e1: Engine,
    n: u64,
    now_ns: u64,
    f0: Seq<EffectView>,
    f1: Seq<EffectView>,
    handed_out: bool,
)
    requires
        e0.cfg.stop_after == (StopAfter::Count { n }),
        n > 0,
        e0.rs.tick_count >= n,
        ticked(e0, e1, now_ns, f0, f1, handed_out),
    ensures
        !handed_out,
        tick_due(e0.rs, now_ns) ==> stopped_all(e0, e1, f0, f1),
        tick_due(e0.rs, now_ns) ==> !e1.rs.is_running,
{
    assert(stop_due(e0.cfg.stop_after, e0.rs.tick_count, e0.rs.start_ns, now_ns));
}

/// Stopping releases every latched key and every latched mouse button (on
/// the window its press went to), and afterwards nothing runs or is held.
pub proof fn lemma_stop_releases_all(e0: Engine, e1: Engine, f0: Seq<EffectView>, f1: Seq<EffectView>)
    requires
        stopped_all(e0, e1, f0, f1),
    ensures
        !e1.rs.is_running,
        e1.rs.macro_state is None,
        e1.held@.keys.len() == 0,
        e1.held@.mouse.len() == 0,
        forall|k: u16|
            e0.held@.keys.contains(k) ==> f1.contains(EffectView::Input(InputOp::KeyUp { vk: k })),
{
    assert forall|k: u16| e0.held@.keys.contains(k) implies f1.contains(
        EffectView::Input(InputOp::KeyUp { vk: k }),
    ) by {
        let keys = e0.held@.keys;
        let i = choose|i: int| 0 <= i < keys.len() && keys[i] == k;
        lemma_key_ups_at(keys, i);
        lemma_inputs_at(key_ups(keys) + super::virtual_hold::latch_releases(e0.held@.mouse), i);
        let r = release_held_effects(e0.held@);
        let pre = f0 + stop_effects(e0.rs);
        assert(r[i] == EffectView::Input(InputOp::KeyUp { vk: k }));
        assert(f1[pre.len() + i] == r[i]);
    }
}

proof fn lemma_key_ups_at(keys: Seq<u16>, i: int)
    requires
        0 <= i < keys.len(),
    ensures
        key_ups(keys).len() == keys.len(),
        key_ups(keys)[i] == (InputOp::KeyUp { vk: keys[i] }),
    decreases keys.len(),
{
    if keys.len() == 1 {
        assert(key_ups(keys.drop_last()).len() == 0);
    } else if i < keys.len() - 1 {
        lemma_key_ups_at(keys.drop_last(), i);
    } else {
        lemma_key_ups_at(keys.drop_last(), 0);
    }
}

proof fn lemma_inputs_at(ops: Seq<InputOp>, i: int)
    requires
        0 <= i < ops.len(),
    ensures
        inputs(ops).len() == ops.len(),
        inputs(ops)[i] == EffectView::Input(ops[i]),
    decreases ops.len(),
{
    if ops.len() == 1 {
        assert(inputs(ops.drop_last()).len() == 0);
    } else if i < ops.len() - 1 {
        lemma_inputs_at(ops.drop_last(), i);
    } else {
        lemma_inputs_at(ops.drop_last(), 0);
    }
}

/// A duration-limited run never hands out an event once its time is up:
/// the next due tick stops everything instead.
pub proof fn lemma_duration_limit(
    e0: Engine,
    e1: Engine,
    ms: u64,
    now_ns: u64,
    f0: Seq<EffectView>,
    f1: Seq<EffectView>,
    handed_out: bool,
)
    requires
        e0.cfg.stop_after == (StopAfter::Duration { ms }),
        elapsed_ms(e0.rs.start_ns, now_ns) >= ms,
        ticked(e0, e1, now_ns, f0, f1, handed_out),
    ensures
        !handed_out,
        tick_due(e0.rs, now_ns) ==> stopped_all(e0, e1, f0, f1),
        tick_due(e0.rs, now_ns) ==> !e1.rs.is_running,
{
    assert(stop_due(e0.cfg.stop_after, e0.rs.tick_count, e0.rs.start_ns, now_ns));
}

/// Playback with a loop target of `n > 0` plays `n` loops: once the last
/// frame of the `n`-th loop is done, finishing that event ends the playback,
/// releasing whatever it holds and reporting `Stopped`.
pub proof fn lemma_playback_loop_limit(
    e0: Engine,
    e1: Engine,
    ms: MacroPlayState,
    now_ns: u64,
    z_micro: int,
    f0: Seq<EffectView>,
    f1: Seq<EffectView>,
)
    requires
        e0.action is PlayMacro,
        e0.dispatched,
        e0.rs.is_running,
        e0.rs.macro_state == Some(ms),
        ms.frame_idx >= ms.macro_ref.frames@.len(),
        ms.loops_target > 0,
        ms.loops_done < u32::MAX,
        ms.loops_done + 1 >= ms.loops_target,
        finished(e0, e1, now_ns, z_micro, f0, f1),
    ensures
        !e1.rs.is_running,
        e1.rs.macro_state is None,
        f1 == f0 + inputs(playback_releases(ms)) + emits(EventView::Stopped),
{
}

/// Every period the loop waits is at least 1 ms; without jitter it is the
/// base period, with jitter of up to `max` ms it stays within `max` of the
/// base period (or is 1 ms when that would go below 1).
pub proof fn lemma_interval_bounds(rate: RateConfig, z_micro: int, ms: int)
    requires
        interval_choice(rate, z_micro, ms),
    ensures
        1 <= ms <= u64::MAX,
        !(rate.jitter_enabled && rate.jitter_max_ms > 0) ==> ms == base_interval_ms(rate),
        rate.jitter_enabled && rate.jitter_max_ms > 0 ==> base_interval_ms(rate)
            - rate.jitter_max_ms <= ms,
        rate.jitter_enabled && rate.jitter_max_ms > 0 ==> (ms == 1 || ms <= base_interval_ms(rate)
            + rate.jitter_max_ms),
{
    let base = base_interval_ms(rate);
    let max = rate.jitter_max_ms as int;
    if rate.jitter_enabled && max > 0 {
        match rate.jitter_curve {
            JitterCurve::Uniform => {
                let off = choose|off: int| -max <= off <= max && ms == jittered_ms(base, off);
            },
            JitterCurve::Gaussian => {
                let off = gaussian_offset(max, z_micro);
                assert(-max <= off <= max);
            },
        }
    } else {
        assert(base <= u64::MAX) by {
            if rate.use_cps {
                assert(1_000_000int / effective_cps_milli(rate.cps_milli) <= 1_000_000int / 100)
                    by (nonlinear_arith)
                    requires
                        effective_cps_milli(rate.cps_milli) >= 100,
                ;
            }
        }
    }
}

/// Playback with a loop target of 0 is endless: once the last frame is
/// played it starts again from the first frame (at least 50 ms later), as
/// long as the stop condition is not reached.
pub proof fn lemma_endless_playback(
    e0: Engine,
    e1: Engine,
    ms: MacroPlayState,
    now_ns: u64,
    z_micro: int,
    f0: Seq<EffectView>,
    f1: Seq<EffectView>,
)
    requires
        e0.action is PlayMacro,
        e0.dispatched,
        e0.rs.is_running,
        e0.rs.macro_state == Some(ms),
        ms.macro_ref.frames@.len() > 0,
        ms.frame_idx >= ms.macro_ref.frames@.len(),
        ms.loops_target == 0,
        !stop_due(e0.cfg.stop_after, next_count(e0.rs.tick_count), e0.rs.start_ns, now_ns),
        finished(e0, e1, now_ns, z_micro, f0, f1),
    ensures
        e1.rs.is_running,
        e1.rs.macro_state matches Some(ms1) && ms1.frame_idx == 0,
        f1 == f0,
        e1.rs.next_tick_ns == add_ms(
            now_ns,
            frame_delay_ms(ms.macro_ref.frames@[0].delta_ms, true),
        ),
        frame_delay_ms(ms.macro_ref.frames@[0].delta_ms, true) >= 50,
{
}

/// The held keys after pressing a combo's hotkey `i` times from `h`: the
/// combo latched after the keys already held after an odd number of presses,
/// `h` itself after an even number.
pub open spec fn combo_after_presses(h: HoldView, c: Seq<u16>, i: int) -> HoldView {
    if i % 2 == 0 {
        h
    } else {
        HoldView { keys: h.keys + c, ..h }
    }
}

/// What the `i`-th press (counting from 0) of a combo's hotkey reports from
/// `h`: on an even press the combo's keys go down (modifiers first) and the
/// latched keys are reported; on an odd press they come up in reverse and the
/// keys held before are reported.
pub open spec fn combo_press_effects(h: HoldView, c: Seq<u16>, i: int) -> Seq<EffectView> {
    if i % 2 == 0 {
        inputs(key_downs(c)) + emits(EventView::HeldChanged(sorted_keys(h.keys + c)))
    } else {
        inputs(key_ups(c.reverse())) + emits(EventView::HeldChanged(sorted_keys(h.keys)))
    }
}

/// Engines `es[0..=k]` and reported effects `fs[0..=k]` where each press of
/// the hotkey takes `es[i]` to `es[i + 1]`, settings kept.
pub open spec fn pressed_in_turn(
    es: Seq<Engine>,
    ts: Seq<u64>,
    zs: Seq<int>,
    fs: Seq<Seq<EffectView>>,
) -> bool {
    &&& es.len() >= 1
    &&& fs.len() == es.len()
    &&& ts.len() + 1 == es.len()
    &&& zs.len() + 1 == es.len()
    &&& forall|i: int| 0 <= i < es.len() - 1 ==> #[trigger] pressed_at(es, ts, zs, fs, i)
}

/// The `i`-th press takes `es[i]` to `es[i + 1]`, settings kept.
pub open spec fn pressed_at(
    es: Seq<Engine>,
    ts: Seq<u64>,
    zs: Seq<int>,
    fs: Seq<Seq<EffectView>>,
    i: int,
) -> bool {
    toggled(es[i], es[i + 1], ts[i], zs[i], fs[i], fs[i + 1]) && settings_same(es[i], es[i + 1])
}

proof fn lemma_combo_presses_upto(
    es: Seq<Engine>,
    ts: Seq<u64>,
    zs: Seq<int>,
    fs: Seq<Seq<EffectView>>,
    vk: u16,
    mods: KeyMods,
    i: int,
)
    requires
        es[0].action == (Action::KeyTap { vk, mods, mode: TriggerMode::Hold }),
        forall|j: int|
            0 <= j < combo_keys(vk, mods).len() ==> !es[0].held@.keys.contains(
                #[trigger] combo_keys(vk, mods)[j],
            ),
        pressed_in_turn(es, ts, zs, fs),
        0 <= i < es.len(),
    ensures
        es[i].action == es[0].action,
        es[i].rs == es[0].rs,
        es[i].held@ == combo_after_presses(es[0].held@, combo_keys(vk, mods), i),
        i > 0 ==> fs[i] == fs[i - 1] + combo_press_effects(
            es[0].held@,
            combo_keys(vk, mods),
            i - 1,
        ),
    decreases i,
{
    let c = combo_keys(vk, mods);
    let h = es[0].held@;
    lemma_combo_round_trip(h.keys, vk, mods);
    if i > 0 {
        lemma_combo_presses_upto(es, ts, zs, fs, vk, mods, i - 1);
        assert(pressed_at(es, ts, zs, fs, i - 1));
        if (i - 1) % 2 == 0 {
            assert(es[i].held@ == combo_after_presses(h, c, i));
        } else {
            assert(es[i].held@ == combo_after_presses(h, c, i));
        }
    }
}

/// Hold mode on a key combo none of whose keys is held, for any number of
/// presses of the hotkey: the loop never starts and the action stays; after
/// an odd number of presses the combo is latched after the keys held before,
/// after an even number the held keys are as before; every press reports
/// exactly `combo_press_effects` (keys down and the latched keys on odd
/// presses, the same keys up in reverse and the keys held before on even
/// ones).
pub proof fn lemma_hold_combo_presses(
    es: Seq<Engine>,
    ts: Seq<u64>,
    zs: Seq<int>,
    fs: Seq<Seq<EffectView>>,
    vk: u16,
    mods: KeyMods,
)
    requires
        es[0].action == (Action::KeyTap { vk, mods, mode: TriggerMode::Hold }),
        forall|j: int|
            0 <= j < combo_keys(vk, mods).len() ==> !es[0].held@.keys.contains(
                #[trigger] combo_keys(vk, mods)[j],
            ),
        pressed_in_turn(es, ts, zs, fs),
    ensures
        forall|i: int|
            0 <= i < es.len() ==> (#[trigger] es[i]).rs == es[0].rs && es[i].action == es[0].action
                && es[i].held@ == combo_after_presses(es[0].held@, combo_keys(vk, mods), i),
        forall|i: int|
            0 <= i < es.len() - 1 ==> #[trigger] fs[i + 1] == fs[i] + combo_press_effects(
                es[0].held@,
                combo_keys(vk, mods),
                i,
            ),
{
    assert forall|i: int| 0 <= i < es.len() implies (#[trigger] es[i]).rs == es[0].rs
        && es[i].action == es[0].action && es[i].held@ == combo_after_presses(
        es[0].held@,
        combo_keys(vk, mods),
        i,
    ) by {
        lemma_combo_presses_upto(es, ts, zs, fs, vk, mods, i);
    }
    assert forall|i: int| 0 <= i < es.len() - 1 implies #[trigger] fs[i + 1] == fs[i]
        + combo_press_effects(es[0].held@, combo_keys(vk, mods), i) by {
        lemma_combo_presses_upto(es, ts, zs, fs, vk, mods, i + 1);
    }
}

/// The latches after pressing a mouse button's hotkey `i` times from `h`,
/// the window of each latched press noted as `ws[i - 1]`: the button latched
/// on that window after an odd number of presses, `h` itself after an even
/// number.
pub open spec fn mouse_after_presses(h: HoldView, b: u8, ws: Seq<isize>, i: int) -> HoldView {
    if i % 2 == 0 {
        h
    } else {
        HoldView { mouse: with_target(h.mouse.push((b, 0isize)), b, ws[i - 1]), ..h }
    }
}

/// What the `i`-th press (counting from 0) of a mouse button's hotkey reports
/// from `h`: on an even press the button is latched down and the latched
/// buttons are reported; on an odd press it is released on the window noted
/// for the press before and the buttons latched before are reported.
pub open spec fn mouse_press_effects(h: HoldView, button: MouseButton, ws: Seq<isize>, i: int) -> Seq<
    EffectView,
> {
    if i % 2 == 0 {
        inputs(seq![InputOp::HoldButtonDown { button }]) + emits(
            EventView::MouseHeldChanged(latched_buttons(h.mouse.push((button_byte(button), 0isize)))),
        )
    } else {
        inputs(seq![InputOp::HoldButtonUp { button, target: ws[i - 1] }]) + emits(
            EventView::MouseHeldChanged(latched_buttons(h.mouse)),
        )
    }
}

/// The `i`-th press of a mouse button's hotkey takes `es[i]` to `after[i]`,
/// settings kept; a press that latched the button then has the window it went
/// to (`ws[i]`) noted, giving `es[i + 1]`, and a releasing press gives
/// `es[i + 1] == after[i]`.
pub open spec fn mouse_pressed_at(
    es: Seq<Engine>,
    after: Seq<Engine>,
    button: MouseButton,
    ws: Seq<isize>,
    ts: Seq<u64>,
    zs: Seq<int>,
    fs: Seq<Seq<EffectView>>,
    i: int,
) -> bool {
    &&& toggled(es[i], after[i], ts[i], zs[i], fs[i], fs[i + 1])
    &&& settings_same(es[i], after[i])
    &&& if has_byte(es[i].held@.mouse, button_byte(button)) {
        es[i + 1] == after[i]
    } else {
        &&& es[i + 1] == (Engine { held: es[i + 1].held, ..after[i] })
        &&& es[i + 1].held@ == (HoldView {
            mouse: with_target(after[i].held@.mouse, button_byte(button), ws[i]),
            ..after[i].held@
        })
    }
}

proof fn lemma_mouse_presses_upto(
    es: Seq<Engine>,
    after: Seq<Engine>,
    button: MouseButton,
    ws: Seq<isize>,
    ts: Seq<u64>,
    zs: Seq<int>,
    fs: Seq<Seq<EffectView>>,
    i: int,
)
    requires
        es[0].action matches Action::MouseClick { button: b, mode: TriggerMode::Hold, repeat_while_toggled: false, .. }
            && b == button,
        !has_byte(es[0].held@.mouse, button_byte(button)),
        es.len() >= 1,
        fs.len() == es.len(),
        after.len() + 1 == es.len() && ws.len() + 1 == es.len(),
        ts.len() + 1 == es.len() && zs.len() + 1 == es.len(),
        forall|j: int|
            0 <= j < es.len() - 1 ==> #[trigger] mouse_pressed_at(es, after, button, ws, ts, zs, fs, j),
        0 <= i < es.len(),
    ensures
        es[i].action == es[0].action,
        es[i].rs == es[0].rs,
        es[i].held@ == mouse_after_presses(es[0].held@, button_byte(button), ws, i),
        i > 0 ==> fs[i] == fs[i - 1] + mouse_press_effects(es[0].held@, button, ws, i - 1),
    decreases i,
{
    let h = es[0].held@;
    let b = button_byte(button);
    if i > 0 {
        lemma_mouse_presses_upto(es, after, button, ws, ts, zs, fs, i - 1);
        assert(mouse_pressed_at(es, after, button, ws, ts, zs, fs, i - 1));
        if (i - 1) % 2 == 0 {
            assert(es[i - 1].held@ == h);
            assert(es[i].held@ == mouse_after_presses(h, b, ws, i));
        } else {
            lemma_mouse_round_trip(h.mouse, b, ws[i - 2]);
            assert(has_byte(es[i - 1].held@.mouse, b));
            assert(es[i].held@ == mouse_after_presses(h, b, ws, i));
        }
    }
}

/// Hold mode on a mouse button that is not latched, for any number of
/// presses of the hotkey, the window of each latched press being noted
/// before the next press: the loop never starts and the action stays; after
/// an odd number of presses the button is latched on the window noted last,
/// after an even number the latches are as before; every press reports
/// exactly `mouse_press_effects` (the latched press and the latched buttons,
/// or the release on the noted window and the buttons latched before).
pub proof fn lemma_hold_mouse_presses(
    es: Seq<Engine>,
    after: Seq<Engine>,
    button: MouseButton,
    ws: Seq<isize>,
    ts: Seq<u64>,
    zs: Seq<int>,
    fs: Seq<Seq<EffectView>>,
)
    requires
        es[0].action matches Action::MouseClick { button: b, mode: TriggerMode::Hold, repeat_while_toggled: false, .. }
            && b == button,
        !has_byte(es[0].held@.mouse, button_byte(button)),
        es.len() >= 1,
        fs.len() == es.len(),
        after.len() + 1 == es.len() && ws.len() + 1 == es.len(),
        ts.len() + 1 == es.len() && zs.len() + 1 == es.len(),
        forall|j: int|
            0 <= j < es.len() - 1 ==> #[trigger] mouse_pressed_at(es, after, button, ws, ts, zs, fs, j),
    ensures
        forall|i: int|
            0 <= i < es.len() ==> (#[trigger] es[i]).rs == es[0].rs && es[i].action == es[0].action
                && es[i].held@ == mouse_after_presses(es[0].held@, button_byte(button), ws, i),
        forall|i: int|
            0 <= i < es.len() - 1 ==> #[trigger] fs[i + 1] == fs[i] + mouse_press_effects(
                es[0].held@,
                button,
                ws,
                i,
            ),
{
    assert forall|i: int| 0 <= i < es.len() implies (#[trigger] es[i]).rs == es[0].rs
        && es[i].action == es[0].action && es[i].held@ == mouse_after_presses(
        es[0].held@,
        button_byte(button),
        ws,
        i,
    ) by {
        lemma_mouse_presses_upto(es, after, button, ws, ts, zs, fs, i);
    }
    assert forall|i: int| 0 <= i < es.len() - 1 implies #[trigger] fs[i + 1] == fs[i]
        + mouse_press_effects(es[0].held@, button, ws, i) by {
        lemma_mouse_presses_upto(es, after, button, ws, ts, zs, fs, i + 1);
    }
}

/// The number of events handed out among `hs`.
pub open spec fn handed_count(hs: Seq<bool>) -> nat
    decreases hs.len(),
{
    if hs.len() == 0 {
        0
    } else {
        handed_count(hs.drop_last()) + if hs.last() {
            1nat
        } else {
            0nat
        }
    }
}

/// The `i`-th `tick` (at `ts[i]`, handing out `hs[i]`) takes `es[2i]` to
/// `es[2i + 1]`, settings kept, and the `finish_tick` after it (at `us[i]`,
/// with the sample `zs[i]`) takes that to `es[2i + 2]`.
pub open spec fn clock_step(
    es: Seq<Engine>,
    fs: Seq<Seq<EffectView>>,
    ts: Seq<u64>,
    us: Seq<u64>,
    zs: Seq<int>,
    hs: Seq<bool>,
    i: int,
) -> bool {
    &&& ticked(es[2 * i], es[2 * i + 1], ts[i], fs[2 * i], fs[2 * i + 1], hs[i])
    &&& settings_same(es[2 * i], es[2 * i + 1])
    &&& finished(es[2 * i + 1], es[2 * i + 2], us[i], zs[i], fs[2 * i + 1], fs[2 * i + 2])
}

/// Engines `es[0..=2k]` and effects `fs[0..=2k]` of `k` rounds of `tick` and
/// `finish_tick`, with no command in between.
pub open spec fn driven_by_clock(
    es: Seq<Engine>,
    fs: Seq<Seq<EffectView>>,
    ts: Seq<u64>,
    us: Seq<u64>,
    zs: Seq<int>,
    hs: Seq<bool>,
) -> bool {
    &&& es.len() == 2 * hs.len() + 1
    &&& fs.len() == es.len()
    &&& ts.len() == hs.len()
    &&& us.len() == hs.len()
    &&& zs.len() == hs.len()
    &&& forall|i: int| 0 <= i < hs.len() ==> #[trigger] clock_step(es, fs, ts, us, zs, hs, i)
}

proof fn lemma_count_run_upto(
    es: Seq<Engine>,
    fs: Seq<Seq<EffectView>>,
    ts: Seq<u64>,
    us: Seq<u64>,
    zs: Seq<int>,
    hs: Seq<bool>,
    n: u64,
    j: int,
)
    requires
        driven_by_clock(es, fs, ts, us, zs, hs),
        es[0].cfg.stop_after == (StopAfter::Count { n }),
        n > 0,
        !(es[0].action is PlayMacro),
        !es[0].dispatched,
        es[0].rs.tick_count == 0,
        0 <= j <= hs.len(),
    ensures
        settings_same(es[0], es[2 * j]),
        !es[2 * j].dispatched,
        handed_count(hs.take(j)) <= n,
        es[2 * j].rs.is_running ==> es[2 * j].rs.tick_count == handed_count(hs.take(j))
            && handed_count(hs.take(j)) < n,
    decreases j,
{
    if j == 0 {
        assert(hs.take(0).len() == 0);
    } else {
        lemma_count_run_upto(es, fs, ts, us, zs, hs, n, j - 1);
        assert(clock_step(es, fs, ts, us, zs, hs, j - 1));
        assert(hs.take(j).drop_last() =~= hs.take(j - 1));
        assert(hs.take(j).last() == hs[j - 1]);
    }
}

/// A run limited to `n > 0` events, driven by the clock alone from a count
/// of 0: it hands out at most `n` events; while it runs, its count is the
/// number of events handed out; and once the `n`-th is completed it no
/// longer runs.
pub proof fn lemma_count_limit_run(
    es: Seq<Engine>,
    fs: Seq<Seq<EffectView>>,
    ts: Seq<u64>,
    us: Seq<u64>,
    zs: Seq<int>,
    hs: Seq<bool>,
    n: u64,
)
    requires
        driven_by_clock(es, fs, ts, us, zs, hs),
        es[0].cfg.stop_after == (StopAfter::Count { n }),
        n > 0,
        !(es[0].action is PlayMacro),
        !es[0].dispatched,
        es[0].rs.tick_count == 0,
    ensures
        handed_count(hs) <= n,
        es.last().rs.is_running ==> es.last().rs.tick_count == handed_count(hs),
        handed_count(hs) == n ==> !es.last().rs.is_running,
{
    lemma_count_run_upto(es, fs, ts, us, zs, hs, n, hs.len() as int);
    assert(hs.take(hs.len() as int) =~= hs);
}

/// The playback of `e` plays the macro of `ms0` (of `L` frames) toward the
/// loop target of `ms0`, and is at the position after `c` events: frame `f`
/// of loop `d` with `f + L * d == c`, `f < L` and `d` below the target.
pub open spec fn playing_at(e: Engine, ms0: MacroPlayState, c: int) -> bool {
    let len = ms0.macro_ref.frames@.len() as int;
    e.rs.macro_state matches Some(ms) && ms.macro_ref == ms0.macro_ref && ms.loops_target
        == ms0.loops_target && ms.frame_idx < len && ms.loops_done < ms0.loops_target
        && ms.frame_idx + len * ms.loops_done == c
}

proof fn lemma_playback_run_upto(
    es: Seq<Engine>,
    fs: Seq<Seq<EffectView>>,
    ts: Seq<u64>,
    us: Seq<u64>,
    zs: Seq<int>,
    hs: Seq<bool>,
    ms0: MacroPlayState,
    j: int,
)
    requires
        driven_by_clock(es, fs, ts, us, zs, hs),
        es[0].action is PlayMacro,
        es[0].cfg.stop_after == StopAfter::Never,
        !es[0].dispatched,
        es[0].rs.is_running,
        es[0].rs.macro_state == Some(ms0),
        ms0.frame_idx == 0,
        ms0.loops_done == 0,
        ms0.loops_target > 0,
        ms0.macro_ref.frames@.len() > 0,
        0 <= j <= hs.len(),
    ensures
        settings_same(es[0], es[2 * j]),
        !es[2 * j].dispatched,
        es[2 * j].rs.is_running ==> playing_at(es[2 * j], ms0, handed_count(hs.take(j)) as int),
        !es[2 * j].rs.is_running ==> handed_count(hs.take(j)) == ms0.macro_ref.frames@.len()
            * ms0.loops_target,
    decreases j, 0int,
{
    if j == 0 {
        assert(hs.take(0).len() == 0);
    } else {
        lemma_playback_step(es, fs, ts, us, zs, hs, ms0, j - 1);
    }
}

proof fn lemma_playback_step(
    es: Seq<Engine>,
    fs: Seq<Seq<EffectView>>,
    ts: Seq<u64>,
    us: Seq<u64>,
    zs: Seq<int>,
    hs: Seq<bool>,
    ms0: MacroPlayState,
    i: int,
)
    requires
        driven_by_clock(es, fs, ts, us, zs, hs),
        es[0].action is PlayMacro,
        es[0].cfg.stop_after == StopAfter::Never,
        !es[0].dispatched,
        es[0].rs.is_running,
        es[0].rs.macro_state == Some(ms0),
        ms0.frame_idx == 0,
        ms0.loops_done == 0,
        ms0.loops_target > 0,
        ms0.macro_ref.frames@.len() > 0,
        0 <= i < hs.len(),
    ensures
        settings_same(es[0], es[2 * i + 2]),
        !es[2 * i + 2].dispatched,
        es[2 * i + 2].rs.is_running ==> playing_at(es[2 * i + 2], ms0, handed_count(hs.take(i + 1)) as int),
        !es[2 * i + 2].rs.is_running ==> handed_count(hs.take(i + 1)) == ms0.macro_ref.frames@.len()
            * ms0.loops_target,
        hs[i] ==> (es[2 * i].rs.macro_state matches Some(ms) && fs[2 * i + 1] == fs[2 * i] + inputs(
            event_ops(ms0.macro_ref.frames@[ms.frame_idx as int].event),
        ) && playing_at(es[2 * i], ms0, handed_count(hs.take(i)) as int)),
    decreases i, 1int,
{
    let len = ms0.macro_ref.frames@.len() as int;
    let k = ms0.loops_target as int;
    lemma_playback_run_upto(es, fs, ts, us, zs, hs, ms0, i);
    assert(clock_step(es, fs, ts, us, zs, hs, i));
    assert(hs.take(i + 1).drop_last() =~= hs.take(i));
    assert(hs.take(i + 1).last() == hs[i]);
    if es[2 * i].rs.is_running {
        let ms = es[2 * i].rs.macro_state->Some_0;
        let d = ms.loops_done as int;
        assert(len * (d + 1) == len * d + len) by (nonlinear_arith);
        assert(len * (d + 1) <= len * k) by (nonlinear_arith)
            requires
                d + 1 <= k,
                len > 0,
        ;
    }
}

proof fn lemma_playing_at_position(e: Engine, ms0: MacroPlayState, c: int)
    requires
        playing_at(e, ms0, c),
    ensures
        c < ms0.macro_ref.frames@.len() * ms0.loops_target,
        e.rs.macro_state matches Some(ms) && ms.frame_idx == c % (ms0.macro_ref.frames@.len() as int)
            && ms.loops_done == c / (ms0.macro_ref.frames@.len() as int),
{
    let len = ms0.macro_ref.frames@.len() as int;
    let k = ms0.loops_target as int;
    let ms = e.rs.macro_state->Some_0;
    let f = ms.frame_idx as int;
    let d = ms.loops_done as int;
    assert(f + len * d < len * k) by (nonlinear_arith)
        requires
            0 <= f < len,
            0 <= d < k,
    ;
    assert(c == d * len + f) by (nonlinear_arith)
        requires
            c == f + len * d,
    ;
    vstd::arithmetic::div_mod::lemma_fundamental_div_mod_converse(c, len, d, f);
}

/// Playback of a macro of `L > 0` frames with a loop target of `k > 0`,
/// driven by the clock alone from the first frame with no stop condition:
/// the event handed out after `c` others plays frame `c % L`; at most `L * k`
/// events are handed out; after `c` events the playback runs exactly when
/// `c < L * k`, and is then at frame `c % L` of loop `c / L`.
pub proof fn lemma_playback_plays_loops(
    es: Seq<Engine>,
    fs: Seq<Seq<EffectView>>,
    ts: Seq<u64>,
    us: Seq<u64>,
    zs: Seq<int>,
    hs: Seq<bool>,
    ms0: MacroPlayState,
)
    requires
        driven_by_clock(es, fs, ts, us, zs, hs),
        es[0].action is PlayMacro,
        es[0].cfg.stop_after == StopAfter::Never,
        !es[0].dispatched,
        es[0].rs.is_running,
        es[0].rs.macro_state == Some(ms0),
        ms0.frame_idx == 0,
        ms0.loops_done == 0,
        ms0.loops_target > 0,
        ms0.macro_ref.frames@.len() > 0,
    ensures
        handed_count(hs) <= ms0.macro_ref.frames@.len() * ms0.loops_target,
        es.last().rs.is_running <==> handed_count(hs) < ms0.macro_ref.frames@.len()
            * ms0.loops_target,
        es.last().rs.is_running ==> (es.last().rs.macro_state matches Some(ms) && ms.frame_idx
            == (handed_count(hs) as int) % (ms0.macro_ref.frames@.len() as int) && ms.loops_done
            == (handed_count(hs) as int) / (ms0.macro_ref.frames@.len() as int)),
        forall|i: int|
            0 <= i < hs.len() && #[trigger] hs[i] ==> fs[2 * i + 1] == fs[2 * i] + inputs(
                event_ops(
                    ms0.macro_ref.frames@[(handed_count(hs.take(i)) as int) % (ms0.macro_ref.frames@.len() as int)].event,
                ),
            ),
{
    let len = ms0.macro_ref.frames@.len() as int;
    lemma_playback_run_upto(es, fs, ts, us, zs, hs, ms0, hs.len() as int);
    assert(hs.take(hs.len() as int) =~= hs);
    if es.last().rs.is_running {
        lemma_playing_at_position(es.last(), ms0, handed_count(hs) as int);
    }
    assert forall|i: int| 0 <= i < hs.len() && #[trigger] hs[i] implies fs[2 * i + 1] == fs[2 * i]
        + inputs(event_ops(ms0.macro_ref.frames@[(handed_count(hs.take(i)) as int) % len].event)) by {
        lemma_playback_step(es, fs, ts, us, zs, hs, ms0, i);
        lemma_playing_at_position(es[2 * i], ms0, handed_count(hs.take(i)) as int);
    }
}

/// An auto mouse action hands out, for each due event before its stop
/// condition, exactly one click of the action's own button, click pattern
/// (single, double or triple) and target, held for a time `hold_choice`
/// allows; the run state is left as it was for `finish_tick`.
pub proof fn lemma_auto_click_is_the_configured_click(
    e0: Engine,
    e1: Engine,
    now_ns: u64,
    f0: Seq<EffectView>,
    f1: Seq<EffectView>,
    handed_out: bool,
    button: MouseButton,
    pattern: ClickPattern,
    target: Target,
    repeat: bool,
)
    requires
        e0.action == (Action::MouseClick {
            button,
            pattern,
            target,
            mode: TriggerMode::Auto,
            repeat_while_toggled: repeat,
        }),
        e0.rs.is_running,
        now_ns >= e0.rs.next_tick_ns,
        !stop_due(e0.cfg.stop_after, e0.rs.tick_count, e0.rs.start_ns, now_ns),
        ticked(e0, e1, now_ns, f0, f1, handed_out),
    ensures
        handed_out,
        e1.rs == e0.rs,
        exists|h: u32|
            hold_choice(e0.cfg.rate, h as int) && f1 == f0.push(
                EffectView::Input(InputOp::Click { button, pattern, target, hold_ms: h }),
            ),
{
    let h = choose|h: u32|
        hold_choice(e0.cfg.rate, h as int) && f1 == f0 + inputs(seq![loop_op(e0.action, h)->0]);
    let one = seq![loop_op(e0.action, h)->0];
    assert(one[0] == InputOp::Click { button, pattern, target, hold_ms: h });
    assert(one.drop_last() =~= Seq::<InputOp>::empty());
    assert(inputs(one.drop_last()) == Seq::<EffectView>::empty());
    assert(inputs(one) =~= seq![EffectView::Input(InputOp::Click { button, pattern, target, hold_ms: h })]);
    assert(f1 == f0.push(EffectView::Input(InputOp::Click { button, pattern, target, hold_ms: h })));
}

/// A hold-mode mouse action set to repeat while toggled hands out, for each
/// due event before its stop condition, exactly one single click of the
/// action's own button on its own target, held for a time `hold_choice`
/// allows.
pub proof fn lemma_repeating_hold_click_is_a_single_click(
    e0: Engine,
    e1: Engine,
    now_ns: u64,
    f0: Seq<EffectView>,
    f1: Seq<EffectView>,
    handed_out: bool,
    button: MouseButton,
    pattern: ClickPattern,
    target: Target,
)
    requires
        e0.action == (Action::MouseClick {
            button,
            pattern,
            target,
            mode: TriggerMode::Hold,
            repeat_while_toggled: true,
        }),
        e0.rs.is_running,
        now_ns >= e0.rs.next_tick_ns,
        !stop_due(e0.cfg.stop_after, e0.rs.tick_count, e0.rs.start_ns, now_ns),
        ticked(e0, e1, now_ns, f0, f1, handed_out),
    ensures
        handed_out,
        e1.rs == e0.rs,
        exists|h: u32|
            hold_choice(e0.cfg.rate, h as int) && f1 == f0.push(
                EffectView::Input(
                    InputOp::Click { button, pattern: ClickPattern::Single, target, hold_ms: h },
                ),
            ),
{
    let h = choose|h: u32|
        hold_choice(e0.cfg.rate, h as int) && f1 == f0 + inputs(seq![loop_op(e0.action, h)->0]);
    let one = seq![loop_op(e0.action, h)->0];
    assert(one[0] == InputOp::Click { button, pattern: ClickPattern::Single, target, hold_ms: h });
    assert(one.drop_last() =~= Seq::<InputOp>::empty());
    assert(inputs(one.drop_last()) == Seq::<EffectView>::empty());
    assert(inputs(one) =~= seq![
        EffectView::Input(InputOp::Click { button, pattern: ClickPattern::Single, target, hold_ms: h }),
    ]);
    assert(f1 == f0.push(
        EffectView::Input(InputOp::Click { button, pattern: ClickPattern::Single, target, hold_ms: h }),
    ));
}

/// An auto key action hands out, for each due event before its stop
/// condition, exactly one tap of the action's own key and modifiers, held
/// for a time `hold_choice` allows.
pub proof fn lemma_auto_key_is_the_configured_tap(
    e0: Engine,
    e1: Engine,
    now_ns: u64,
    f0: Seq<EffectView>,
    f1: Seq<EffectView>,
    handed_out: bool,
    vk: u16,
    mods: KeyMods,
)
    requires
        e0.action == (Action::KeyTap { vk, mods, mode: TriggerMode::Auto }),
        e0.rs.is_running,
        now_ns >= e0.rs.next_tick_ns,
        !stop_due(e0.cfg.stop_after, e0.rs.tick_count, e0.rs.start_ns, now_ns),
        ticked(e0, e1, now_ns, f0, f1, handed_out),
    ensures
        handed_out,
        e1.rs == e0.rs,
        exists|h: u32|
            hold_choice(e0.cfg.rate, h as int) && f1 == f0.push(
                EffectView::Input(InputOp::KeyTap { vk, mods, hold_ms: h }),
            ),
{
    let h = choose|h: u32|
        hold_choice(e0.cfg.rate, h as int) && f1 == f0 + inputs(seq![loop_op(e0.action, h)->0]);
    let one = seq![loop_op(e0.action, h)->0];
    assert(one[0] == InputOp::KeyTap { vk, mods, hold_ms: h });
    assert(one.drop_last() =~= Seq::<InputOp>::empty());
    assert(inputs(one.drop_last()) == Seq::<EffectView>::empty());
    assert(inputs(one) =~= seq![EffectView::Input(InputOp::KeyTap { vk, mods, hold_ms: h })]);
    assert(f1 == f0.push(EffectView::Input(InputOp::KeyTap { vk, mods, hold_ms: h })));
}

/// Playback keeps the recorded timing: once an event is completed at
/// `now_ns` and the playback goes on, the next frame is due its recorded
/// delay `delta_ms` later (at least 1 ms); when the playback wraps to a new
/// loop, the first frame is due its recorded delay but at least 50 ms later.
/// Deadlines saturate at the largest time.
pub proof fn lemma_playback_keeps_recorded_delays(
    e0: Engine,
    e1: Engine,
    ms: MacroPlayState,
    now_ns: u64,
    z_micro: int,
    f0: Seq<EffectView>,
    f1: Seq<EffectView>,
)
    requires
        e0.action is PlayMacro,
        e0.dispatched,
        e0.rs.is_running,
        e0.rs.macro_state == Some(ms),
        ms.macro_ref.frames@.len() > 0,
        !stop_due(e0.cfg.stop_after, next_count(e0.rs.tick_count), e0.rs.start_ns, now_ns),
        finished(e0, e1, now_ns, z_micro, f0, f1),
    ensures
        ms.frame_idx < ms.macro_ref.frames@.len() ==> ({
            let delta = ms.macro_ref.frames@[ms.frame_idx as int].delta_ms as int;
            let wait = if delta < 1 { 1 } else { delta };
            let t = now_ns + wait * 1_000_000;
            &&& e1.rs.is_running
            &&& e1.rs.macro_state matches Some(ms1) && ms1.frame_idx == ms.frame_idx
            &&& e1.rs.next_tick_ns == (if t > u64::MAX { u64::MAX as int } else { t })
        }),
        ms.frame_idx >= ms.macro_ref.frames@.len() && (ms.loops_target == 0 || ms.loops_done + 1
            < ms.loops_target) ==> ({
            let delta = ms.macro_ref.frames@[0].delta_ms as int;
            let wait = if delta < 50 { 50 } else { delta };
            let t = now_ns + wait * 1_000_000;
            &&& e1.rs.is_running
            &&& e1.rs.macro_state matches Some(ms1) && ms1.frame_idx == 0
            &&& e1.rs.next_tick_ns == (if t > u64::MAX { u64::MAX as int } else { t })
        }),
{
}

} // verus!
