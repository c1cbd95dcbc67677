use std::sync::Arc;

use mkac::engine::command::{
    Action, ClickPattern, Command, EngineEvent, HotkeyBinding, JitterCurve, KeyMods, MouseButton,
    RateConfig, StopAfter, Target, TriggerMode,
};
use mkac::engine::input::{click_count, key_tap_plan, pack_mouse_point, InputOp};
use mkac::engine::macros::{Macro, MacroEvent, MacroFrame};
use mkac::engine::scheduler::{
    compute_interval, deadline_after, gaussian_jitter, hold_for_draw, hold_range,
    interval_for_draw, jittered_interval, pick_hold_ms, should_stop, uniform_offset_range, Effect,
    Engine, RunState,
};

const MS: u64 = 1_000_000;

fn inputs_of(out: &[Effect]) -> Vec<InputOp> {
    out.iter()
        .filter_map(|e| match e {
            Effect::Input(op) => Some(*op),
            _ => None,
        })
        .collect()
}

fn started(out: &[Effect]) -> bool {
    out.iter().any(|e| matches!(e, Effect::Emit(EngineEvent::Started)))
}

fn stopped(out: &[Effect]) -> bool {
    out.iter().any(|e| matches!(e, Effect::Emit(EngineEvent::Stopped)))
}

fn fixed_rate(interval_ms: u64) -> RateConfig {
    let mut r = RateConfig::default();
    r.use_cps = false;
    r.interval_ms = interval_ms;
    r
}

#[test]
fn pack_round_trips_bound_hotkeys() {
    let b = HotkeyBinding { vk: 0x75, ctrl: true, shift: false, alt: true, win: true };
    let p = b.pack();
    assert_eq!(p, 0x75 | 0x1_0000 | 0x4_0000 | 0x8_0000);
    assert_eq!(HotkeyBinding::unpack(p), Some(b));
    assert_eq!(HotkeyBinding::default().pack(), 0);
    assert_eq!(HotkeyBinding::unpack(0), None);
    assert_eq!(HotkeyBinding::unpack(0x1_0000), None);
    assert!(HotkeyBinding::new(0x77).is_set());
    assert!(!HotkeyBinding::default().is_set());
}

#[test]
fn base_interval_follows_cps_or_interval() {
    let mut r = RateConfig::default();
    assert_eq!(r.base_interval(), 100);
    r.cps_milli = 3_000;
    assert_eq!(r.base_interval(), 333);
    r.cps_milli = 0;
    assert_eq!(r.base_interval(), 10_000);
    r.cps_milli = 200_000;
    assert_eq!(r.base_interval(), 5);
    r.use_cps = false;
    r.interval_ms = 0;
    assert_eq!(r.base_interval(), 1);
    r.interval_ms = 42;
    assert_eq!(r.base_interval(), 42);
}

#[test]
fn normalized_raises_hold_max() {
    let mut r = RateConfig::default();
    r.hold_min_ms = 40;
    r.hold_max_ms = 10;
    assert_eq!(r.normalized().hold_max_ms, 40);
    r.hold_max_ms = 90;
    assert_eq!(r.normalized().hold_max_ms, 90);
}

#[test]
fn interval_without_jitter_is_the_base() {
    assert_eq!(compute_interval(&fixed_rate(250), 0), 250);
}

#[test]
fn uniform_jitter_stays_in_range() {
    let mut r = fixed_rate(100);
    r.jitter_enabled = true;
    r.jitter_max_ms = 30;
    let mut seen = std::collections::BTreeSet::new();
    for _ in 0..500 {
        let ms = compute_interval(&r, 0);
        assert!((70..=130).contains(&ms));
        seen.insert(ms);
    }
    assert!(seen.len() > 10);
    let mut tiny = fixed_rate(2);
    tiny.jitter_enabled = true;
    tiny.jitter_max_ms = 50;
    for _ in 0..200 {
        let ms = compute_interval(&tiny, 0);
        assert!((1..=52).contains(&ms));
    }
}

#[test]
fn gaussian_jitter_scales_and_clamps() {
    assert_eq!(gaussian_jitter(30, 1_000_000), 10);
    assert_eq!(gaussian_jitter(30, -1_500_000), -15);
    assert_eq!(gaussian_jitter(30, 9_000_000), 30);
    assert_eq!(gaussian_jitter(30, -9_000_000), -30);
    assert_eq!(gaussian_jitter(10, 150_000), 1);
    assert_eq!(gaussian_jitter(0, 5_000_000), 0);
    let mut r = fixed_rate(100);
    r.jitter_enabled = true;
    r.jitter_max_ms = 30;
    r.jitter_curve = JitterCurve::Gaussian;
    assert_eq!(compute_interval(&r, 1_000_000), 110);
    assert_eq!(compute_interval(&r, -9_000_000), 70);
}

#[test]
fn hold_time_is_zero_without_jitter_and_in_range_with_it() {
    let mut r = RateConfig::default();
    r.hold_min_ms = 5;
    r.hold_max_ms = 9;
    assert_eq!(pick_hold_ms(&r), 0);
    r.jitter_enabled = true;
    let mut seen = std::collections::BTreeSet::new();
    for _ in 0..200 {
        let h = pick_hold_ms(&r);
        assert!((5..=9).contains(&h));
        seen.insert(h);
    }
    assert!(seen.len() > 1);
    r.hold_max_ms = 1;
    assert_eq!(pick_hold_ms(&r), 5);
}

#[test]
fn deadlines_saturate() {
    assert_eq!(deadline_after(5, 3), 5 + 3 * MS);
    assert_eq!(deadline_after(u64::MAX - 10, 1), u64::MAX);
}

#[test]
fn stop_conditions() {
    let mut rs = RunState::new(1_000 * MS);
    rs.tick_count = 5;
    assert!(!should_stop(&StopAfter::Never, &rs, u64::MAX));
    assert!(should_stop(&StopAfter::Count { n: 5 }, &rs, 0));
    assert!(!should_stop(&StopAfter::Count { n: 6 }, &rs, 0));
    assert!(!should_stop(&StopAfter::Count { n: 0 }, &rs, 0));
    assert!(!should_stop(&StopAfter::Duration { ms: 30 }, &rs, 1_029 * MS));
    assert!(should_stop(&StopAfter::Duration { ms: 30 }, &rs, 1_030 * MS));
    assert!(!should_stop(&StopAfter::Duration { ms: 30 }, &rs, 0));
}

#[test]
fn click_counts_and_key_taps() {
    assert_eq!(click_count(ClickPattern::Single), 1);
    assert_eq!(click_count(ClickPattern::Double), 2);
    assert_eq!(click_count(ClickPattern::Triple), 3);
    let mods = KeyMods { ctrl: true, shift: true, alt: false, win: true };
    let (down, up) = key_tap_plan(0x41, mods);
    assert_eq!(down, vec![0x11, 0x10, 0x5B, 0x41]);
    assert_eq!(up, vec![0x41, 0x5B, 0x10, 0x11]);
    assert_eq!(pack_mouse_point(3, 4), 3 | (4 << 16));
    assert_eq!(pack_mouse_point(-1, 2), 0xFFFF | (2 << 16));
}

#[test]
fn toggle_starts_then_stops_the_loop() {
    let mut e = Engine::new(0);
    let mut out = Vec::new();
    assert!(e.handle_command(Command::SetRate(fixed_rate(50)), 0, 0, &mut out));
    assert!(out.is_empty());
    e.handle_command(Command::Toggle, 10 * MS, 0, &mut out);
    assert!(e.rs.is_running);
    assert!(started(&out));
    assert_eq!(e.rs.next_tick_ns, 60 * MS);
    out.clear();
    e.handle_command(Command::Toggle, 20 * MS, 0, &mut out);
    assert!(!e.rs.is_running);
    assert!(stopped(&out));
}

#[test]
fn ticks_hand_out_clicks_until_the_count() {
    let mut e = Engine::new(0);
    let mut out = Vec::new();
    e.handle_command(Command::SetRate(fixed_rate(10)), 0, 0, &mut out);
    e.handle_command(Command::SetStopAfter(StopAfter::Count { n: 2 }), 0, 0, &mut out);
    e.handle_command(Command::Start, 0, 0, &mut out);
    out.clear();
    assert!(!e.tick(5 * MS, &mut out));
    assert!(out.is_empty());
    assert!(e.tick(10 * MS, &mut out));
    assert_eq!(
        inputs_of(&out),
        vec![InputOp::Click {
            button: MouseButton::Left,
            pattern: ClickPattern::Single,
            target: Target::Cursor,
            hold_ms: 0
        }]
    );
    e.finish_tick(11 * MS, 0, &mut out);
    assert_eq!(e.rs.tick_count, 1);
    assert_eq!(e.rs.next_tick_ns, 20 * MS);
    out.clear();
    assert!(e.tick(20 * MS, &mut out));
    e.finish_tick(21 * MS, 0, &mut out);
    assert!(!e.rs.is_running);
    assert!(stopped(&out));
    out.clear();
    assert!(!e.tick(40 * MS, &mut out));
    assert!(out.is_empty());
}

#[test]
fn late_ticks_reschedule_from_now() {
    let mut e = Engine::new(0);
    let mut out = Vec::new();
    e.handle_command(Command::SetRate(fixed_rate(10)), 0, 0, &mut out);
    e.handle_command(Command::Start, 0, 0, &mut out);
    assert!(e.tick(100 * MS, &mut out));
    e.finish_tick(100 * MS, 0, &mut out);
    assert_eq!(e.rs.next_tick_ns, 110 * MS);
}

#[test]
fn duration_limit_stops_the_loop() {
    let mut e = Engine::new(0);
    let mut out = Vec::new();
    e.handle_command(Command::SetRate(fixed_rate(10)), 0, 0, &mut out);
    e.handle_command(Command::SetStopAfter(StopAfter::Duration { ms: 30 }), 0, 0, &mut out);
    e.handle_command(Command::Start, 0, 0, &mut out);
    out.clear();
    assert!(!e.tick(30 * MS, &mut out));
    assert!(!e.rs.is_running);
    assert!(stopped(&out));
    assert!(inputs_of(&out).is_empty());
}

#[test]
fn key_taps_in_auto_mode() {
    let mut e = Engine::new(0);
    let mut out = Vec::new();
    let mods = KeyMods { ctrl: true, shift: false, alt: false, win: false };
    e.handle_command(Command::SetAction(Action::KeyTap { vk: 0x41, mods, mode: TriggerMode::Auto }), 0, 0, &mut out);
    e.handle_command(Command::SetRate(fixed_rate(10)), 0, 0, &mut out);
    e.handle_command(Command::Start, 0, 0, &mut out);
    out.clear();
    assert!(e.tick(10 * MS, &mut out));
    assert_eq!(inputs_of(&out), vec![InputOp::KeyTap { vk: 0x41, mods, hold_ms: 0 }]);
}

#[test]
fn hold_mode_key_latches_and_releases() {
    let mut e = Engine::new(0);
    let mut out = Vec::new();
    let mods = KeyMods { ctrl: false, shift: true, alt: false, win: false };
    e.handle_command(Command::SetAction(Action::KeyTap { vk: 0x44, mods, mode: TriggerMode::Hold }), 0, 0, &mut out);
    out.clear();
    e.handle_command(Command::Toggle, 0, 0, &mut out);
    assert!(!e.rs.is_running);
    assert_eq!(inputs_of(&out), vec![InputOp::KeyDown { vk: 0x10 }, InputOp::KeyDown { vk: 0x44 }]);
    assert!(out.iter().any(|x| matches!(x, Effect::Emit(EngineEvent::HeldChanged(v)) if *v == vec![0x10, 0x44])));
    out.clear();
    e.handle_command(Command::Toggle, 0, 0, &mut out);
    assert_eq!(inputs_of(&out), vec![InputOp::KeyUp { vk: 0x44 }, InputOp::KeyUp { vk: 0x10 }]);
    assert!(out.iter().any(|x| matches!(x, Effect::Emit(EngineEvent::HeldChanged(v)) if v.is_empty())));
    assert!(e.held.held_keys().is_empty());
}

#[test]
fn hold_mode_mouse_releases_on_the_noted_window() {
    let mut e = Engine::new(0);
    let mut out = Vec::new();
    let a = Action::MouseClick {
        button: MouseButton::Right,
        pattern: ClickPattern::Single,
        target: Target::Cursor,
        mode: TriggerMode::Hold,
        repeat_while_toggled: false,
    };
    e.handle_command(Command::SetAction(a), 0, 0, &mut out);
    out.clear();
    e.handle_command(Command::Toggle, 0, 0, &mut out);
    assert_eq!(inputs_of(&out), vec![InputOp::HoldButtonDown { button: MouseButton::Right }]);
    assert_eq!(e.held.held_mouse_buttons(), vec![MouseButton::Right]);
    e.held.record_mouse_target(MouseButton::Right, 0x5150);
    out.clear();
    e.handle_command(Command::Toggle, 0, 0, &mut out);
    assert_eq!(inputs_of(&out), vec![InputOp::HoldButtonUp { button: MouseButton::Right, target: 0x5150 }]);
    assert!(e.held.held_mouse_buttons().is_empty());
}

#[test]
fn stop_releases_every_latch() {
    let mut e = Engine::new(0);
    let mut out = Vec::new();
    let mods = KeyMods { ctrl: true, shift: false, alt: false, win: false };
    e.handle_command(Command::SetAction(Action::KeyTap { vk: 0x41, mods, mode: TriggerMode::Hold }), 0, 0, &mut out);
    e.handle_command(Command::Toggle, 0, 0, &mut out);
    assert_eq!(e.held.held_keys(), vec![0x11, 0x41]);
    out.clear();
    e.handle_command(Command::Stop, 0, 0, &mut out);
    assert_eq!(inputs_of(&out), vec![InputOp::KeyUp { vk: 0x11 }, InputOp::KeyUp { vk: 0x41 }]);
    assert!(e.held.held_keys().is_empty());
    assert!(!stopped(&out));
}

#[test]
fn latch_actions_never_start_the_loop() {
    let mut e = Engine::new(0);
    let mut out = Vec::new();
    e.handle_command(Command::SetAction(Action::KeyTap { vk: 0x41, mods: KeyMods::default(), mode: TriggerMode::Hold }), 0, 0, &mut out);
    out.clear();
    e.handle_command(Command::Start, 0, 0, &mut out);
    assert!(!e.rs.is_running);
    assert!(out.is_empty());
}

#[test]
fn playback_plays_frames_and_loops() {
    let m = Macro::new(
        "m",
        vec![
            MacroFrame { delta_ms: 0, event: MacroEvent::KeyDown { vk: 0x41 } },
            MacroFrame { delta_ms: 20, event: MacroEvent::KeyUp { vk: 0x41 } },
        ],
    );
    let mut e = Engine::new(0);
    let mut out = Vec::new();
    e.handle_command(Command::SetAction(Action::PlayMacro), 0, 0, &mut out);
    e.handle_command(Command::LoadMacro(Arc::new(m)), 0, 0, &mut out);
    e.handle_command(Command::SetMacroLoops(2), 0, 0, &mut out);
    out.clear();
    e.handle_command(Command::Start, 0, 0, &mut out);
    assert!(started(&out));
    assert_eq!(e.rs.next_tick_ns, 0);
    let mut played = Vec::new();
    let mut now = 0;
    for _ in 0..10 {
        out.clear();
        if !e.rs.is_running {
            break;
        }
        now = now.max(e.rs.next_tick_ns);
        if e.tick(now, &mut out) {
            played.extend(inputs_of(&out));
            out.clear();
            e.finish_tick(now, 0, &mut out);
        }
    }
    assert!(!e.rs.is_running);
    assert_eq!(
        played,
        vec![
            InputOp::KeyDown { vk: 0x41 },
            InputOp::KeyUp { vk: 0x41 },
            InputOp::KeyDown { vk: 0x41 },
            InputOp::KeyUp { vk: 0x41 },
        ]
    );
}

#[test]
fn playback_needs_a_loaded_macro() {
    let mut e = Engine::new(0);
    let mut out = Vec::new();
    e.handle_command(Command::SetAction(Action::PlayMacro), 0, 0, &mut out);
    out.clear();
    e.handle_command(Command::Start, 0, 0, &mut out);
    assert!(!e.rs.is_running);
    e.handle_command(Command::LoadMacro(Arc::new(Macro::new("e", Vec::new()))), 0, 0, &mut out);
    e.handle_command(Command::Start, 0, 0, &mut out);
    assert!(!e.rs.is_running);
    assert!(out.is_empty());
}

#[test]
fn interrupted_playback_releases_what_it_holds() {
    let m = Macro::new(
        "m",
        vec![
            MacroFrame { delta_ms: 0, event: MacroEvent::KeyDown { vk: 0x42 } },
            MacroFrame { delta_ms: 0, event: MacroEvent::MouseDown { button: MouseButton::Left, x: 1, y: 1 } },
            MacroFrame { delta_ms: 500, event: MacroEvent::KeyUp { vk: 0x42 } },
        ],
    );
    let mut e = Engine::new(0);
    let mut out = Vec::new();
    e.handle_command(Command::SetAction(Action::PlayMacro), 0, 0, &mut out);
    e.handle_command(Command::LoadMacro(Arc::new(m)), 0, 0, &mut out);
    e.handle_command(Command::Start, 0, 0, &mut out);
    for t in [0u64, 1, 2] {
        let now = t * MS;
        if e.tick(now, &mut out) {
            e.finish_tick(now, 0, &mut out);
        }
    }
    out.clear();
    e.handle_command(Command::Stop, 3 * MS, 0, &mut out);
    assert_eq!(
        inputs_of(&out),
        vec![InputOp::KeyUp { vk: 0x42 }, InputOp::ButtonUp { button: MouseButton::Left }]
    );
    assert!(stopped(&out));
}

#[test]
fn shutdown_ends_the_driver_loop() {
    let mut e = Engine::new(0);
    let mut out = Vec::new();
    assert!(!e.handle_command(Command::Shutdown, 0, 0, &mut out));
    assert!(e.handle_command(Command::ClearMacro, 0, 0, &mut out));
}

#[test]
fn zero_loops_play_until_stopped() {
    let m = Macro::new("m", vec![MacroFrame { delta_ms: 0, event: MacroEvent::KeyDown { vk: 0x41 } }]);
    let mut e = Engine::new(0);
    let mut out = Vec::new();
    e.handle_command(Command::SetAction(Action::PlayMacro), 0, 0, &mut out);
    e.handle_command(Command::LoadMacro(Arc::new(m)), 0, 0, &mut out);
    e.handle_command(Command::SetMacroLoops(0), 0, 0, &mut out);
    e.handle_command(Command::Start, 0, 0, &mut out);
    let mut presses = 0;
    let mut now = 0;
    for _ in 0..20 {
        out.clear();
        now = now.max(e.rs.next_tick_ns);
        if e.tick(now, &mut out) {
            presses += inputs_of(&out).len();
            e.finish_tick(now, 0, &mut out);
        }
    }
    assert!(e.rs.is_running);
    assert_eq!(presses, 20);
    assert_eq!(e.rs.next_tick_ns, now + 50 * MS);
    out.clear();
    e.handle_command(Command::Stop, now, 0, &mut out);
    assert!(!e.rs.is_running);
    assert!(stopped(&out));
}

#[test]
fn draw_ranges_and_exact_periods() {
    assert_eq!(uniform_offset_range(30), (-30, 30));
    assert_eq!(uniform_offset_range(0), (0, 0));
    assert_eq!(jittered_interval(100, 7), 107);
    assert_eq!(jittered_interval(100, -200), 1);
    assert_eq!(jittered_interval(u64::MAX, 5), u64::MAX);
    let mut r = fixed_rate(100);
    assert_eq!(interval_for_draw(&r, 12, 3_000_000), 100);
    r.jitter_enabled = true;
    r.jitter_max_ms = 30;
    assert_eq!(interval_for_draw(&r, 12, 3_000_000), 112);
    assert_eq!(interval_for_draw(&r, -30, 0), 70);
    r.jitter_curve = JitterCurve::Gaussian;
    assert_eq!(interval_for_draw(&r, 12, 3_000_000), 130);
    let mut h = RateConfig::default();
    h.hold_min_ms = 8;
    h.hold_max_ms = 3;
    assert_eq!(hold_range(&h), (8, 8));
    assert_eq!(hold_for_draw(&h, 99), 0);
    h.jitter_enabled = true;
    assert_eq!(hold_for_draw(&h, 99), 8);
    h.hold_max_ms = 12;
    assert_eq!(hold_range(&h), (8, 12));
    assert_eq!(hold_for_draw(&h, 11), 11);
}

#[test]
fn count_limited_run_hands_out_exactly_the_limit() {
    let mut e = Engine::new(0);
    let mut out = Vec::new();
    e.handle_command(Command::SetRate(fixed_rate(10)), 0, 0, &mut out);
    e.handle_command(Command::SetStopAfter(StopAfter::Count { n: 5 }), 0, 0, &mut out);
    e.handle_command(Command::Start, 0, 0, &mut out);
    let mut handed: u64 = 0;
    let mut now = 0;
    for _ in 0..40 {
        out.clear();
        if e.tick(now, &mut out) {
            handed += 1;
        }
        e.finish_tick(now, 0, &mut out);
        if e.rs.is_running {
            assert_eq!(e.rs.tick_count, handed);
        }
        now += 4 * MS;
    }
    assert_eq!(handed, 5);
    assert!(!e.rs.is_running);
}

#[test]
fn playback_hands_out_frames_times_loops() {
    let frames = vec![
        MacroFrame { delta_ms: 0, event: MacroEvent::KeyDown { vk: 0x41 } },
        MacroFrame { delta_ms: 5, event: MacroEvent::KeyUp { vk: 0x41 } },
        MacroFrame { delta_ms: 5, event: MacroEvent::KeyDown { vk: 0x42 } },
    ];
    let m = Macro::new("three", frames.clone());
    let mut e = Engine::new(0);
    let mut out = Vec::new();
    e.handle_command(Command::SetAction(Action::PlayMacro), 0, 0, &mut out);
    e.handle_command(Command::LoadMacro(Arc::new(m)), 0, 0, &mut out);
    e.handle_command(Command::SetMacroLoops(3), 0, 0, &mut out);
    e.handle_command(Command::Start, 0, 0, &mut out);
    let mut played: Vec<Vec<InputOp>> = Vec::new();
    let mut now = 0;
    for _ in 0..100 {
        out.clear();
        now = now.max(e.rs.next_tick_ns);
        if e.tick(now, &mut out) {
            played.push(inputs_of(&out));
            out.clear();
            e.finish_tick(now, 0, &mut out);
        }
        if !e.rs.is_running {
            break;
        }
    }
    assert!(!e.rs.is_running);
    assert_eq!(played.len(), 9);
    for (c, ops) in played.iter().enumerate() {
        let expected = match frames[c % 3].event {
            MacroEvent::KeyDown { vk } => InputOp::KeyDown { vk },
            MacroEvent::KeyUp { vk } => InputOp::KeyUp { vk },
            _ => unreachable!(),
        };
        assert_eq!(ops, &vec![expected]);
    }
}

#[test]
fn hold_mode_key_alternates_over_many_presses() {
    let mut e = Engine::new(0);
    let mut out = Vec::new();
    let mods = KeyMods { ctrl: true, shift: false, alt: false, win: false };
    e.handle_command(Command::SetAction(Action::KeyTap { vk: 0x45, mods, mode: TriggerMode::Hold }), 0, 0, &mut out);
    for i in 0..7 {
        out.clear();
        e.handle_command(Command::Toggle, 0, 0, &mut out);
        assert!(!e.rs.is_running);
        assert!(!started(&out));
        if i % 2 == 0 {
            assert_eq!(inputs_of(&out), vec![InputOp::KeyDown { vk: 0x11 }, InputOp::KeyDown { vk: 0x45 }]);
            assert_eq!(e.held.held_keys(), vec![0x11, 0x45]);
        } else {
            assert_eq!(inputs_of(&out), vec![InputOp::KeyUp { vk: 0x45 }, InputOp::KeyUp { vk: 0x11 }]);
            assert!(e.held.held_keys().is_empty());
        }
    }
}
