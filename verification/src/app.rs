use vstd::prelude::*;

use std::sync::Arc;

use crate::config::settings::{default_settings, Settings};
use crate::engine::command::{
    default_action, default_rate, packed_value, Action, Command, EngineEvent, HotkeyBinding,
    MouseButton, RateConfig, StopAfter,
};
use crate::engine::macros::{frames_duration, Macro, MacroFrame, MACRO_SCHEMA};
use crate::hooks::hotkey::{set_macro_record_binding, HotkeyState};
use crate::hooks::recording::RecEvent;
use crate::text::{decimal, push_decimal};
use crate::ui::panel_clicker::{default_mouse_config, target_of, MouseConfig};
use crate::ui::panel_keypress::{default_keypress_config, KeyPressConfig};
use crate::ui::panel_macros::{is_fresh, is_idle, MacroAction, MacrosState};
use crate::ui::panel_settings::SettingsState;
use crate::ui::theme::Theme;
use crate::ui::widgets::{binding_label, format_binding, next_theme, other_theme};

verus! {

/// Events captured this shortly before recording stops are dropped: they are
/// most likely the pointer travelling to the Stop button.
pub const RECORD_GRACE_NS: u64 = 150_000_000;

/// Nanoseconds per millisecond.
pub const NANOS_PER_MS: u64 = 1_000_000;

/// The captured events that a recording stopped at `stop_at_ns` keeps: those
/// seen no later than the grace period before the stop, in capture order.
pub open spec fn kept_events(buffer: Seq<RecEvent>, stop_at_ns: u64) -> Seq<RecEvent> {
    buffer.filter(seen_by(stop_at_ns - RECORD_GRACE_NS))
}

/// Whether an event was seen no later than `cutoff`.
pub open spec fn seen_by(cutoff: int) -> spec_fn(RecEvent) -> bool {
    |e: RecEvent| e.at_ns <= cutoff
}

/// Whole milliseconds from `prev` to `at` (0 when `at` is earlier), capped at
/// `u32::MAX`.
pub open spec fn delta_ms_between(prev: u64, at: u64) -> u32 {
    if at <= prev {
        0
    } else if (at - prev) / (NANOS_PER_MS as int) > u32::MAX {
        u32::MAX
    } else {
        ((at - prev) / (NANOS_PER_MS as int)) as u32
    }
}

/// The frames made from kept events: each event with its delay after the
/// previous one, the first with no delay.
pub open spec fn frames_of(kept: Seq<RecEvent>) -> Seq<MacroFrame> {
    Seq::new(
        kept.len(),
        |i: int|
            MacroFrame {
                delta_ms: if i == 0 {
                    0
                } else {
                    delta_ms_between(kept[i - 1].at_ns, kept[i].at_ns)
                },
                event: kept[i].event,
            },
    )
}

/// A frame's delay is the whole milliseconds between the two events: when
/// the later event is seen after the earlier one and less than `u32::MAX + 1`
/// ms later, the delay `d` satisfies `d ms <= at - prev < (d + 1) ms`; an
/// event not seen later gets no delay, and a gap too long to count is capped.
pub proof fn lemma_frame_delay_is_the_elapsed_time(prev: u64, at: u64)
    ensures
        at <= prev ==> delta_ms_between(prev, at) == 0,
        prev < at && at - prev < (u32::MAX + 1) * 1_000_000 ==> delta_ms_between(prev, at) * 1_000_000
            <= at - prev < delta_ms_between(prev, at) * 1_000_000 + 1_000_000,
        prev < at && at - prev >= (u32::MAX + 1) * 1_000_000 ==> delta_ms_between(prev, at) == u32::MAX,
{
    if prev < at {
        let g = at - prev;
        let q = g / 1_000_000int;
        vstd::arithmetic::div_mod::lemma_fundamental_div_mod(g, 1_000_000int);
        vstd::arithmetic::div_mod::lemma_mod_pos_bound(g, 1_000_000int);
        if g < (u32::MAX + 1) * 1_000_000 {
            assert(q <= u32::MAX) by (nonlinear_arith)
                requires
                    g == 1_000_000 * q + g % 1_000_000,
                    0 <= g % 1_000_000,
                    g < (u32::MAX + 1) * 1_000_000,
            ;
        } else {
            assert(q > u32::MAX) by (nonlinear_arith)
                requires
                    g == 1_000_000 * q + g % 1_000_000,
                    g % 1_000_000 < 1_000_000,
                    g >= (u32::MAX + 1) * 1_000_000,
            ;
        }
    }
}

fn delta_ms(prev: u64, at: u64) -> (d: u32)
    ensures
        d == delta_ms_between(prev, at),
{
    if at <= prev {
        return 0;
    }
    let ms = (at - prev) / NANOS_PER_MS;
    if ms > u32::MAX as u64 {
        u32::MAX
    } else {
        ms as u32
    }
}

/// Turns the captured events into a named recording: drops those inside the
/// grace period before the stop, then gives each kept event its delay after
/// the previous kept one (the first gets none).
pub fn build_macro_from_buffer(buffer: &Vec<RecEvent>, name: &str, stop_at_ns: u64) -> (m: Macro)
    requires
        stop_at_ns >= RECORD_GRACE_NS,
    ensures
        m.schema == MACRO_SCHEMA,
        m.name@ == name@,
        m.frames@ == frames_of(kept_events(buffer@, stop_at_ns)),
        m.total_duration_ms == frames_duration(frames_of(kept_events(buffer@, stop_at_ns))),
{
    let cutoff = stop_at_ns - RECORD_GRACE_NS;
    let mut kept: Vec<RecEvent> = Vec::new();
    let mut i: usize = 0;
    while i < buffer.len()
        invariant
            i <= buffer.len(),
            cutoff == stop_at_ns - RECORD_GRACE_NS,
            kept@ == buffer@.take(i as int).filter(seen_by(cutoff as int)),
        decreases buffer.len() - i,
    {
        let ev = buffer[i];
        assert(buffer@.take(i + 1).drop_last() =~= buffer@.take(i as int));
        assert(buffer@.take(i + 1).last() == ev);
        if ev.at_ns <= cutoff {
            kept.push(ev);
        }
        proof {
            reveal(Seq::filter);
            let p = seen_by(cutoff as int);
            let s = buffer@.take(i + 1);
            assert(s.filter(p) == (if p(s.last()) {
                s.drop_last().filter(p).push(s.last())
            } else {
                s.drop_last().filter(p)
            }));
        }
        i += 1;
    }
    assert(buffer@.take(buffer.len() as int) =~= buffer@);
    let mut frames: Vec<MacroFrame> = Vec::new();
    let mut j: usize = 0;
    while j < kept.len()
        invariant
            j <= kept.len(),
            frames@ == frames_of(kept@).take(j as int),
        decreases kept.len() - j,
    {
        let delta = if j == 0 {
            0
        } else {
            delta_ms(kept[j - 1].at_ns, kept[j].at_ns)
        };
        frames.push(MacroFrame { delta_ms: delta, event: kept[j].event });
        assert(frames@ =~= frames_of(kept@).take(j + 1));
        j += 1;
    }
    assert(frames_of(kept@).take(kept.len() as int) =~= frames_of(kept@));
    Macro::new(name, frames)
}

/// The tabs of the window.
#[derive(Debug, Clone, Copy, PartialEq, Eq, Structural)]
pub enum Tab {
    Mouse,
    Keyboard,
    Macros,
    Settings,
}

impl Default for Tab {
    fn default() -> (t: Self)
        ensures
            t == Tab::Mouse,
    {
        Tab::Mouse
    }
}

/// Something the driver does on the library's behalf.
#[derive(Debug, Clone)]
pub enum AppEffect {
    /// Hand a command to the engine.
    Send(Command),
    /// Turn capturing in the input hooks on or off.
    SetRecording(bool),
    /// Drop whatever the hooks captured that has not been read yet.
    DiscardCaptured,
    /// Write the settings file.
    SaveSettings,
}

/// The whole interface state.
#[derive(Debug, Clone)]
pub struct AppState {
    pub tab: Tab,
    pub rate: RateConfig,
    pub stop: StopAfter,
    pub mouse: MouseConfig,
    pub keypress: KeyPressConfig,
    pub macros: MacrosState,
    pub running: bool,
    pub held_keys: Vec<u16>,
    pub held_mouse: Vec<MouseButton>,
    pub settings: Settings,
    pub settings_panel: SettingsState,
    pub want_exit: bool,
    pub recording_buffer: Vec<RecEvent>,
    /// The action last handed to the engine; the settings tab keeps it.
    pub last_action: Action,
    /// The record-hotkey counter value last taken.
    pub macro_record_last_seen: u32,
    pub was_focused_last_frame: bool,
}

impl Default for AppState {
    /// The mouse tab with default settings everywhere and nothing running,
    /// held, recorded or focused.
    fn default() -> (r: Self)
        ensures
            r.tab == Tab::Mouse,
            r.rate == default_rate(),
            r.stop == StopAfter::Never,
            r.mouse == default_mouse_config(),
            r.keypress == default_keypress_config(),
            is_fresh(r.macros),
            !r.running,
            r.held_keys@.len() == 0,
            r.held_mouse@.len() == 0,
            r.settings == default_settings(),
            !r.settings_panel.capturing_toggle && r.settings_panel.feedback is None,
            !r.want_exit,
            r.recording_buffer@.len() == 0,
            r.last_action == default_action(),
            r.macro_record_last_seen == 0,
            !r.was_focused_last_frame,
    {
        AppState {
            tab: Tab::Mouse,
            rate: RateConfig::default(),
            stop: StopAfter::Never,
            mouse: MouseConfig::default(),
            keypress: KeyPressConfig::default(),
            macros: MacrosState::default(),
            running: false,
            held_keys: Vec::new(),
            held_mouse: Vec::new(),
            settings: Settings::default(),
            settings_panel: SettingsState::default(),
            want_exit: false,
            recording_buffer: Vec::new(),
            last_action: Action::default(),
            macro_record_last_seen: 0,
            was_focused_last_frame: false,
        }
    }
}

/// The action the current tab stands for: the configured click on the mouse
/// tab, the configured key on the keyboard tab, macro playback on the macros
/// tab, and the last action on the settings tab, which has none of its own.
pub open spec fn action_for(tab: Tab, mouse: MouseConfig, keypress: KeyPressConfig, last: Action) -> Action {
    match tab {
        Tab::Mouse => Action::MouseClick {
            button: mouse.button,
            pattern: mouse.pattern,
            target: target_of(mouse),
            mode: mouse.mode,
            repeat_while_toggled: false,
        },
        Tab::Keyboard => Action::KeyTap {
            vk: keypress.selected_vk,
            mods: keypress.mods,
            mode: keypress.mode,
        },
        Tab::Macros => Action::PlayMacro,
        Tab::Settings => last,
    }
}

/// The action for the current tab (see `action_for`).
pub fn build_action(state: &AppState) -> (a: Action)
    ensures
        a == action_for(state.tab, state.mouse, state.keypress, state.last_action),
{
    match state.tab {
        Tab::Mouse => Action::MouseClick {
            button: state.mouse.button,
            pattern: state.mouse.pattern,
            target: state.mouse.target(),
            mode: state.mouse.mode,
            repeat_while_toggled: false,
        },
        Tab::Keyboard => Action::KeyTap {
            vk: state.keypress.selected_vk,
            mods: state.keypress.mods,
            mode: state.keypress.mode,
        },
        Tab::Macros => Action::PlayMacro,
        Tab::Settings => state.last_action,
    }
}

/// Makes the current tab's action the last action and returns the command
/// that hands it to the engine.
pub fn refresh_action(state: &mut AppState) -> (c: Command)
    ensures
        final(state).last_action == action_for(
            old(state).tab,
            old(state).mouse,
            old(state).keypress,
            old(state).last_action,
        ),
        c == Command::SetAction(final(state).last_action),
        *final(state) == (AppState { last_action: final(state).last_action, ..*old(state) }),
{
    let a = build_action(state);
    state.last_action = a;
    Command::SetAction(a)
}

/// Whether a message slot shows `text`, flagged as success when `good`.
pub open spec fn shows(feedback: Option<(String, bool)>, text: Seq<char>, good: bool) -> bool {
    match feedback {
        Some((t, g)) => t@ == text && g == good,
        None => false,
    }
}

/// The message `text` with its success flag.
fn message(text: &str, good: bool) -> (r: Option<(String, bool)>)
    ensures
        shows(r, text@, good),
{
    Some((String::from_str(text), good))
}

/// Starts a recording at `now_ns`: the engine is stopped, the captured
/// events so far are dropped, and the hooks start capturing.
pub fn start_recording(macros: &mut MacrosState, buffer: &mut Vec<RecEvent>, now_ns: u64) -> (effects: Vec<
    AppEffect,
>)
    ensures
        effects@ == seq![
            AppEffect::Send(Command::Stop),
            AppEffect::DiscardCaptured,
            AppEffect::SetRecording(true),
        ],
        final(buffer)@.len() == 0,
        *final(macros) == (MacrosState {
            recording: true,
            record_started_at_ns: Some(now_ns),
            record_event_count: 0,
            pending: None,
            feedback: None,
            ..*old(macros)
        }),
{
    buffer.clear();
    macros.recording = true;
    macros.record_started_at_ns = Some(now_ns);
    macros.record_event_count = 0;
    macros.pending = None;
    macros.feedback = None;
    vec![AppEffect::Send(Command::Stop), AppEffect::DiscardCaptured, AppEffect::SetRecording(true)]
}

/// Adds newly captured events to the recording buffer and updates the shown
/// event count (modulo 2^32).
pub fn drain_recording(macros: &mut MacrosState, buffer: &mut Vec<RecEvent>, captured: Vec<RecEvent>)
    ensures
        final(buffer)@ == old(buffer)@ + captured@,
        *final(macros) == (MacrosState {
            record_event_count: final(buffer)@.len() as u32,
            ..*old(macros)
        }),
{
    let mut captured = captured;
    buffer.append(&mut captured);
    macros.record_event_count = buffer.len() as u32;
}

/// Ends a recording stopped at `stop_at_ns`, after the driver has turned
/// capturing off and read the last captured events: the events become an
/// unnamed recording (see `build_macro_from_buffer`), pending until it is
/// named, or a "Nothing recorded" message when none is kept.
pub fn stop_recording(
    macros: &mut MacrosState,
    buffer: &mut Vec<RecEvent>,
    stop_at_ns: u64,
    captured: Vec<RecEvent>,
)
    requires
        stop_at_ns >= RECORD_GRACE_NS,
    ensures
        ({
            let all = old(buffer)@ + captured@;
            let frames = frames_of(kept_events(all, stop_at_ns));
            &&& final(buffer)@.len() == 0
            &&& !final(macros).recording
            &&& final(macros).record_event_count == all.len() as u32
            &&& if frames.len() == 0 {
                &&& final(macros).pending == old(macros).pending
                &&& shows(final(macros).feedback, "Nothing recorded"@, false)
            } else {
                &&& final(macros).pending is Some
                &&& final(macros).pending->0.name@.len() == 0
                &&& final(macros).pending->0.schema == MACRO_SCHEMA
                &&& final(macros).pending->0.frames@ == frames
                &&& final(macros).pending->0.total_duration_ms == frames_duration(frames)
                &&& final(macros).feedback is None
            }
            &&& final(macros).list == old(macros).list
            &&& final(macros).new_name == old(macros).new_name
            &&& final(macros).loaded == old(macros).loaded
            &&& final(macros).loaded_event_count == old(macros).loaded_event_count
            &&& final(macros).loaded_duration_ms == old(macros).loaded_duration_ms
            &&& final(macros).loops == old(macros).loops
            &&& final(macros).record_started_at_ns == old(macros).record_started_at_ns
            &&& final(macros).capturing_record_hotkey == old(macros).capturing_record_hotkey
        }),
{
    drain_recording(macros, buffer, captured);
    macros.recording = false;
    let m = build_macro_from_buffer(buffer, "", stop_at_ns);
    buffer.clear();
    if m.frames.len() == 0 {
        macros.feedback = message("Nothing recorded", false);
    } else {
        macros.pending = Some(m);
        macros.feedback = None;
    }
    proof {
        reveal_strlit("");
    }
}

/// The text shown after a recording is saved.
pub open spec fn saved_text(name: Seq<char>, count: nat) -> Seq<char> {
    "Saved '"@ + name + "' \u{b7} "@ + decimal(count) + " events"@
}

/// Finishes saving the pending recording under `name`, given what saving it
/// gave: on success the refreshed list of saved macros (the recording is then
/// loaded into the engine and shown as loaded), else the error text (the
/// recording stays pending, under the new name). Without a pending recording
/// nothing happens.
pub fn finish_save_pending(macros: &mut MacrosState, name: String, outcome: Result<Vec<String>, String>) -> (effects:
    Vec<AppEffect>)
    ensures
        old(macros).pending is None ==> effects@.len() == 0 && *final(macros) == *old(macros),
        old(macros).pending is Some ==> ({
            let p = old(macros).pending->0;
            let named = Macro { name, ..p };
            match outcome {
                Ok(list) => {
                    &&& effects@ == seq![AppEffect::Send(Command::LoadMacro(Arc::new(named)))]
                    &&& final(macros).pending is None
                    &&& final(macros).list == list
                    &&& final(macros).loaded == Some(name)
                    &&& final(macros).loaded_event_count == p.frames@.len()
                    &&& final(macros).loaded_duration_ms == p.total_duration_ms
                    &&& final(macros).new_name@.len() == 0
                    &&& shows(final(macros).feedback, saved_text(name@, p.frames@.len()), true)
                    &&& final(macros).loops == old(macros).loops
                    &&& final(macros).recording == old(macros).recording
                    &&& final(macros).record_started_at_ns == old(macros).record_started_at_ns
                    &&& final(macros).record_event_count == old(macros).record_event_count
                    &&& final(macros).capturing_record_hotkey
                        == old(macros).capturing_record_hotkey
                },
                Err(e) => {
                    &&& effects@.len() == 0
                    &&& *final(macros) == (MacrosState {
                        pending: Some(named),
                        feedback: final(macros).feedback,
                        ..*old(macros)
                    })
                    &&& shows(final(macros).feedback, "Save failed: "@ + e@, false)
                },
            }
        }),
{
    let mut effects: Vec<AppEffect> = Vec::new();
    if macros.pending.is_none() {
        return effects;
    }
    let mut m = macros.pending.take().unwrap();
    m.name = name;
    match outcome {
        Ok(list) => {
            let count = m.frames.len();
            let mut text = String::from_str("Saved '");
            text.append(m.name.as_str());
            text.append("' \u{b7} ");
            push_decimal(&mut text, count as u64);
            text.append(" events");
            macros.list = list;
            macros.loaded = Some(m.name.clone());
            macros.loaded_event_count = count;
            macros.loaded_duration_ms = m.total_duration_ms;
            macros.new_name = String::new();
            macros.feedback = Some((text, true));
            effects.push(AppEffect::Send(Command::LoadMacro(Arc::new(m))));
        },
        Err(e) => {
            let mut text = String::from_str("Save failed: ");
            text.append(e.as_str());
            macros.pending = Some(m);
            macros.feedback = Some((text, false));
        },
    }
    effects
}

/// Drops the pending recording.
pub fn discard_pending(macros: &mut MacrosState)
    ensures
        *final(macros) == (MacrosState {
            pending: None,
            new_name: final(macros).new_name,
            feedback: final(macros).feedback,
            ..*old(macros)
        }),
        final(macros).new_name@.len() == 0,
        shows(final(macros).feedback, "Recording discarded"@, true),
{
    macros.pending = None;
    macros.new_name = String::new();
    macros.feedback = message("Recording discarded", true);
}

/// Finishes loading the saved macro `name`, given what reading it gave: the
/// recording, which then goes to the engine and is shown as loaded, or the
/// error text.
pub fn finish_load_macro(macros: &mut MacrosState, name: String, outcome: Result<Macro, String>) -> (effects: Vec<
    AppEffect,
>)
    ensures
        match outcome {
            Ok(m) => {
                &&& effects@ == seq![AppEffect::Send(Command::LoadMacro(Arc::new(m)))]
                &&& *final(macros) == (MacrosState {
                    loaded: Some(name),
                    loaded_event_count: m.frames@.len() as usize,
                    loaded_duration_ms: m.total_duration_ms,
                    feedback: final(macros).feedback,
                    ..*old(macros)
                })
                &&& shows(final(macros).feedback, "Loaded '"@ + name@ + "'"@, true)
            },
            Err(e) => {
                &&& effects@.len() == 0
                &&& *final(macros) == (MacrosState { feedback: final(macros).feedback, ..*old(macros) })
                &&& shows(final(macros).feedback, "Load failed: "@ + e@, false)
            },
        },
{
    let mut effects: Vec<AppEffect> = Vec::new();
    match outcome {
        Ok(m) => {
            let mut text = String::from_str("Loaded '");
            text.append(name.as_str());
            text.append("'");
            macros.loaded_event_count = m.frames.len();
            macros.loaded_duration_ms = m.total_duration_ms;
            macros.loaded = Some(name);
            macros.feedback = Some((text, true));
            effects.push(AppEffect::Send(Command::LoadMacro(Arc::new(m))));
        },
        Err(e) => {
            let mut text = String::from_str("Load failed: ");
            text.append(e.as_str());
            macros.feedback = Some((text, false));
        },
    }
    effects
}

/// Whether the loaded macro is the one called `name`.
pub open spec fn is_loaded(loaded: Option<String>, name: Seq<char>) -> bool {
    loaded is Some && loaded->0@ == name
}

/// Finishes deleting the saved macro `name`, given what deleting it gave: the
/// refreshed list of saved macros (when the deleted one was loaded, the
/// engine forgets it and nothing is shown as loaded), or the error text.
pub fn finish_delete_macro(macros: &mut MacrosState, name: String, outcome: Result<Vec<String>, String>) -> (effects:
    Vec<AppEffect>)
    ensures
        match outcome {
            Ok(list) => {
                let was_loaded = is_loaded(old(macros).loaded, name@);
                &&& effects@ == (if was_loaded {
                    seq![AppEffect::Send(Command::ClearMacro)]
                } else {
                    seq![]
                })
                &&& *final(macros) == (MacrosState {
                    list,
                    loaded: if was_loaded {
                        None
                    } else {
                        old(macros).loaded
                    },
                    loaded_event_count: if was_loaded {
                        0
                    } else {
                        old(macros).loaded_event_count
                    },
                    loaded_duration_ms: if was_loaded {
                        0
                    } else {
                        old(macros).loaded_duration_ms
                    },
                    feedback: final(macros).feedback,
                    ..*old(macros)
                })
                &&& shows(final(macros).feedback, "Deleted '"@ + name@ + "'"@, true)
            },
            Err(e) => {
                &&& effects@.len() == 0
                &&& *final(macros) == (MacrosState { feedback: final(macros).feedback, ..*old(macros) })
                &&& shows(final(macros).feedback, "Delete failed: "@ + e@, false)
            },
        },
{
    let mut effects: Vec<AppEffect> = Vec::new();
    match outcome {
        Ok(list) => {
            let was_loaded = match &macros.loaded {
                Some(l) => *l == name,
                None => false,
            };
            if was_loaded {
                macros.loaded = None;
                macros.loaded_event_count = 0;
                macros.loaded_duration_ms = 0;
                effects.push(AppEffect::Send(Command::ClearMacro));
            }
            macros.list = list;
            let mut text = String::from_str("Deleted '");
            text.append(name.as_str());
            text.append("'");
            macros.feedback = Some((text, true));
        },
        Err(e) => {
            let mut text = String::from_str("Delete failed: ");
            text.append(e.as_str());
            macros.feedback = Some((text, false));
        },
    }
    effects
}

/// Sets how many times the macro is played (0 for endless).
pub fn set_loops(macros: &mut MacrosState, n: u32) -> (effects: Vec<AppEffect>)
    ensures
        *final(macros) == (MacrosState { loops: n, ..*old(macros) }),
        effects@ == seq![AppEffect::Send(Command::SetMacroLoops(n))],
{
    macros.loops = n;
    vec![AppEffect::Send(Command::SetMacroLoops(n))]
}

/// Starts playback of the loaded macro: macro playback becomes the action,
/// with the chosen loop count, and the engine starts. Without a loaded macro
/// that has events, only a message says so.
pub fn play(macros: &mut MacrosState, last_action: &mut Action) -> (effects: Vec<AppEffect>)
    ensures
        ({
            let playable = old(macros).loaded is Some && old(macros).loaded_event_count != 0;
            if playable {
                &&& *final(last_action) == Action::PlayMacro
                &&& *final(macros) == *old(macros)
                &&& effects@ == seq![
                    AppEffect::Send(Command::SetAction(Action::PlayMacro)),
                    AppEffect::Send(Command::SetMacroLoops(old(macros).loops)),
                    AppEffect::Send(Command::Start),
                ]
            } else {
                &&& *final(last_action) == *old(last_action)
                &&& effects@.len() == 0
                &&& *final(macros) == (MacrosState { feedback: final(macros).feedback, ..*old(macros) })
                &&& shows(
                    final(macros).feedback,
                    "No macro loaded \u{2014} record or load one first"@,
                    false,
                )
            }
        }),
{
    if macros.loaded.is_none() || macros.loaded_event_count == 0 {
        macros.feedback = message("No macro loaded \u{2014} record or load one first", false);
        Vec::new()
    } else {
        *last_action = Action::PlayMacro;
        vec![
            AppEffect::Send(Command::SetAction(Action::PlayMacro)),
            AppEffect::Send(Command::SetMacroLoops(macros.loops)),
            AppEffect::Send(Command::Start),
        ]
    }
}

/// Stops whatever runs.
pub fn stop() -> (effects: Vec<AppEffect>)
    ensures
        effects@ == seq![AppEffect::Send(Command::Stop)],
{
    vec![AppEffect::Send(Command::Stop)]
}

/// Rebinds the record hotkey: the setting, the hotkey thread's binding and a
/// message change, and the settings are saved.
pub fn set_record_hotkey(
    macros: &mut MacrosState,
    settings: &mut Settings,
    hotkeys: &mut HotkeyState,
    b: HotkeyBinding,
) -> (effects: Vec<AppEffect>)
    ensures
        *final(settings) == (Settings { macro_record_hotkey: b, ..*old(settings) }),
        final(hotkeys).macro_record_binding as int == packed_value(b),
        final(hotkeys).toggle_binding == old(hotkeys).toggle_binding,
        final(hotkeys).rebind_active == old(hotkeys).rebind_active,
        final(hotkeys).macro_record_requests == old(hotkeys).macro_record_requests,
        *final(macros) == (MacrosState { feedback: final(macros).feedback, ..*old(macros) }),
        shows(final(macros).feedback, "Record hotkey set to "@ + binding_label(b), true),
        effects@ == seq![AppEffect::SaveSettings],
{
    settings.macro_record_hotkey = b;
    set_macro_record_binding(hotkeys, b);
    let mut text = String::from_str("Record hotkey set to ");
    let label = format_binding(&b);
    text.append(label.as_str());
    macros.feedback = Some((text, true));
    vec![AppEffect::SaveSettings]
}

/// What a press of the record hotkey asks for: nothing while a recording
/// waits to be named, else stopping the running recording or starting one.
pub fn record_hotkey_action(macros: &MacrosState) -> (a: Option<MacroAction>)
    ensures
        macros.pending is Some ==> a is None,
        macros.pending is None && macros.recording ==> a matches Some(MacroAction::StopRecording),
        macros.pending is None && !macros.recording ==> a matches Some(
            MacroAction::StartRecording,
        ),
{
    if macros.pending.is_some() {
        None
    } else if macros.recording {
        Some(MacroAction::StopRecording)
    } else {
        Some(MacroAction::StartRecording)
    }
}

/// Finishes turning launch-at-login on or off, given what changing the
/// registry gave: on success the setting follows and is saved, with a
/// message; on failure only the error is shown.
pub fn finish_set_autostart(
    settings: &mut Settings,
    panel: &mut SettingsState,
    on: bool,
    outcome: Result<(), String>,
) -> (effects: Vec<AppEffect>)
    ensures
        final(panel).capturing_toggle == old(panel).capturing_toggle,
        match outcome {
            Ok(_) => {
                &&& *final(settings) == (Settings { autostart: on, ..*old(settings) })
                &&& effects@ == seq![AppEffect::SaveSettings]
                &&& shows(
                    final(panel).feedback,
                    if on {
                        "Autostart enabled"@
                    } else {
                        "Autostart disabled"@
                    },
                    true,
                )
            },
            Err(e) => {
                &&& *final(settings) == *old(settings)
                &&& effects@.len() == 0
                &&& shows(final(panel).feedback, "Autostart: "@ + e@, false)
            },
        },
{
    match outcome {
        Ok(_) => {
            settings.autostart = on;
            panel.feedback = if on {
                message("Autostart enabled", true)
            } else {
                message("Autostart disabled", true)
            };
            vec![AppEffect::SaveSettings]
        },
        Err(e) => {
            let mut text = String::from_str("Autostart: ");
            text.append(e.as_str());
            panel.feedback = Some((text, false));
            Vec::new()
        },
    }
}

/// Sets whether closing the window hides it to the tray; saved.
pub fn set_close_to_tray(settings: &mut Settings, on: bool) -> (effects: Vec<AppEffect>)
    ensures
        *final(settings) == (Settings { close_to_tray: on, ..*old(settings) }),
        effects@ == seq![AppEffect::SaveSettings],
{
    settings.close_to_tray = on;
    vec![AppEffect::SaveSettings]
}

/// Sets whether the window starts hidden; saved.
pub fn set_start_minimized(settings: &mut Settings, on: bool) -> (effects: Vec<AppEffect>)
    ensures
        *final(settings) == (Settings { start_minimized: on, ..*old(settings) }),
        effects@ == seq![AppEffect::SaveSettings],
{
    settings.start_minimized = on;
    vec![AppEffect::SaveSettings]
}

/// Sets whether the window can be resized; saved, with a message. The driver
/// resizes the window to match.
pub fn set_resizable_window(settings: &mut Settings, panel: &mut SettingsState, on: bool) -> (effects:
    Vec<AppEffect>)
    ensures
        *final(settings) == (Settings { resizable_window: on, ..*old(settings) }),
        effects@ == seq![AppEffect::SaveSettings],
        final(panel).capturing_toggle == old(panel).capturing_toggle,
        shows(
            final(panel).feedback,
            if on {
                "Resize mode on"@
            } else {
                "Compact mode on"@
            },
            true,
        ),
{
    settings.resizable_window = on;
    panel.feedback = if on {
        message("Resize mode on", true)
    } else {
        message("Compact mode on", true)
    };
    vec![AppEffect::SaveSettings]
}

/// Whether any rebind or key capture is in progress.
pub open spec fn capturing(state: AppState) -> bool {
    state.settings_panel.capturing_toggle || state.macros.capturing_record_hotkey
        || state.keypress.capturing_key
}

/// Notes whether the window has focus this frame. Losing focus, or gaining
/// it this frame, cancels every capture (a click that focuses the window must
/// not start one). Returns whether a capture is still in progress, which the
/// hotkey thread must know.
pub fn update_focus(state: &mut AppState, focused: bool) -> (rebinding: bool)
    ensures
        ({
            let cancel = !focused || !old(state).was_focused_last_frame;
            &&& final(state).settings_panel.capturing_toggle == (!cancel
                && old(state).settings_panel.capturing_toggle)
            &&& final(state).macros.capturing_record_hotkey == (!cancel
                && old(state).macros.capturing_record_hotkey)
            &&& final(state).keypress.capturing_key == (!cancel
                && old(state).keypress.capturing_key)
            &&& final(state).was_focused_last_frame == focused
            &&& final(state).settings_panel.feedback == old(state).settings_panel.feedback
            &&& final(state).macros == (MacrosState {
                capturing_record_hotkey: final(state).macros.capturing_record_hotkey,
                ..old(state).macros
            })
            &&& final(state).keypress == (KeyPressConfig {
                capturing_key: final(state).keypress.capturing_key,
                ..old(state).keypress
            })
            &&& *final(state) == (AppState {
                settings_panel: final(state).settings_panel,
                macros: final(state).macros,
                keypress: final(state).keypress,
                was_focused_last_frame: focused,
                ..*old(state)
            })
            &&& rebinding == capturing(*final(state))
        }),
{
    let just_focused = focused && !state.was_focused_last_frame;
    if !focused || just_focused {
        state.settings_panel.capturing_toggle = false;
        state.macros.capturing_record_hotkey = false;
        state.keypress.capturing_key = false;
    }
    state.was_focused_last_frame = focused;
    state.settings_panel.capturing_toggle || state.macros.capturing_record_hotkey
        || state.keypress.capturing_key
}

/// Takes in a report from the engine.
pub fn apply_engine_event(state: &mut AppState, evt: EngineEvent)
    ensures
        match evt {
            EngineEvent::Started => *final(state) == (AppState { running: true, ..*old(state) }),
            EngineEvent::Stopped => *final(state) == (AppState { running: false, ..*old(state) }),
            EngineEvent::HeldChanged(v) => *final(state) == (AppState {
                held_keys: v,
                ..*old(state)
            }),
            EngineEvent::MouseHeldChanged(v) => *final(state) == (AppState {
                held_mouse: v,
                ..*old(state)
            }),
        },
{
    match evt {
        EngineEvent::Started => state.running = true,
        EngineEvent::Stopped => state.running = false,
        EngineEvent::HeldChanged(v) => state.held_keys = v,
        EngineEvent::MouseHeldChanged(v) => state.held_mouse = v,
    }
}

/// Switches to the other theme; the driver repaints and saves.
pub fn toggle_theme(settings: &mut Settings) -> (t: Theme)
    ensures
        t == other_theme(old(settings).theme),
        *final(settings) == (Settings { theme: t, ..*old(settings) }),
{
    let t = next_theme(settings.theme);
    settings.theme = t;
    t
}

/// The state at launch, from the loaded settings, the saved macros' names and
/// whether launch-at-login is really registered (which wins over the setting
/// and is then saved), with the commands that configure the engine: the
/// rate (its interval from the settings, at least 1 ms), the stop condition
/// and the mouse tab's action.
pub fn startup_state(settings: Settings, macro_list: Vec<String>, autostart_registered: bool) -> (r: (
    AppState,
    Vec<AppEffect>,
))
    ensures
        ({
            let (st, effects) = r;
            let interval = if settings.interval_ms < 1 {
                1
            } else {
                settings.interval_ms
            };
            let action = action_for(Tab::Mouse, default_mouse_config(), default_keypress_config(), default_action());
            &&& st.tab == Tab::Mouse
            &&& st.rate == (RateConfig { interval_ms: interval, ..default_rate() })
            &&& st.stop == StopAfter::Never
            &&& st.settings == (Settings { autostart: autostart_registered, ..settings })
            &&& st.macros.list == macro_list
            &&& is_idle(st.macros)
            &&& st.mouse == default_mouse_config()
            &&& st.keypress == default_keypress_config()
            &&& st.last_action == action
            &&& !st.running && !st.want_exit && !st.was_focused_last_frame
            &&& st.held_keys@.len() == 0 && st.held_mouse@.len() == 0
            &&& st.recording_buffer@.len() == 0
            &&& st.macro_record_last_seen == 0
            &&& !st.settings_panel.capturing_toggle && st.settings_panel.feedback is None
            &&& effects@ == (if settings.autostart != autostart_registered {
                seq![AppEffect::SaveSettings]
            } else {
                seq![]
            }) + seq![
                AppEffect::Send(Command::SetRate(st.rate)),
                AppEffect::Send(Command::SetStopAfter(st.stop)),
                AppEffect::Send(Command::SetAction(action)),
            ]
        }),
{
    let mut st = AppState::default();
    st.rate.interval_ms = if settings.interval_ms < 1 {
        1
    } else {
        settings.interval_ms
    };
    st.settings = settings;
    st.macros.list = macro_list;
    let mut effects: Vec<AppEffect> = Vec::new();
    if st.settings.autostart != autostart_registered {
        st.settings.autostart = autostart_registered;
        effects.push(AppEffect::SaveSettings);
    }
    st.last_action = build_action(&st);
    effects.push(AppEffect::Send(Command::SetRate(st.rate)));
    effects.push(AppEffect::Send(Command::SetStopAfter(st.stop)));
    effects.push(AppEffect::Send(Command::SetAction(st.last_action)));
    (st, effects)
}

/// After the mouse tab was drawn with `before` as its settings: when they
/// changed, the current tab's action becomes the last action and the command
/// handing it to the engine is returned. The interval setting follows the
/// rate either way.
pub fn finish_mouse_edit(state: &mut AppState, before: MouseConfig) -> (c: Option<Command>)
    ensures
        final(state).settings == (Settings {
            interval_ms: old(state).rate.interval_ms,
            ..old(state).settings
        }),
        old(state).mouse == before ==> c is None && final(state).last_action == old(state).last_action,
        old(state).mouse != before ==> c == Some(Command::SetAction(final(state).last_action))
            && final(state).last_action == action_for(
            old(state).tab,
            old(state).mouse,
            old(state).keypress,
            old(state).last_action,
        ),
        *final(state) == (AppState {
            settings: final(state).settings,
            last_action: final(state).last_action,
            ..*old(state)
        }),
{
    let c = if state.mouse != before {
        Some(refresh_action(state))
    } else {
        None
    };
    state.settings.interval_ms = state.rate.interval_ms;
    c
}

/// After the keyboard tab was drawn with `before` as its settings: when the
/// key, its modifiers or the mode changed (not the capture flag), the current
/// tab's action becomes the last action and the command handing it to the
/// engine is returned. The interval setting follows the rate either way.
pub fn finish_keypress_edit(state: &mut AppState, before: KeyPressConfig) -> (c: Option<Command>)
    ensures
        ({
            let k = old(state).keypress;
            let changed = k.selected_vk != before.selected_vk || k.mods != before.mods || k.mode
                != before.mode;
            &&& final(state).settings == (Settings {
                interval_ms: old(state).rate.interval_ms,
                ..old(state).settings
            })
            &&& !changed ==> c is None && final(state).last_action == old(state).last_action
            &&& changed ==> c == Some(Command::SetAction(final(state).last_action))
                && final(state).last_action == action_for(
                old(state).tab,
                old(state).mouse,
                old(state).keypress,
                old(state).last_action,
            )
            &&& *final(state) == (AppState {
                settings: final(state).settings,
                last_action: final(state).last_action,
                ..*old(state)
            })
        }),
{
    let k = state.keypress;
    let c = if k.selected_vk != before.selected_vk || k.mods != before.mods || k.mode != before.mode {
        Some(refresh_action(state))
    } else {
        None
    };
    state.settings.interval_ms = state.rate.interval_ms;
    c
}

} // verus!
