use vstd::prelude::*;

use crate::engine::command::HotkeyBinding;
use crate::engine::macros::Macro;

verus! {

/// The macros tab's state. Times are nanoseconds on the driver's clock.
/// `pending` holds a finished recording until it is named and saved or
/// discarded.
#[derive(Debug, Clone)]
pub struct MacrosState {
    pub list: Vec<String>,
    pub new_name: String,
    pub loaded: Option<String>,
    pub loaded_event_count: usize,
    pub loaded_duration_ms: u64,
    pub loops: u32,
    pub recording: bool,
    pub record_started_at_ns: Option<u64>,
    pub record_event_count: u32,
    pub feedback: Option<(String, bool)>,
    pub capturing_record_hotkey: bool,
    pub pending: Option<Macro>,
}

/// Nothing listed, loaded, recorded or pending; one loop.
pub open spec fn is_fresh(r: MacrosState) -> bool {
    r.list@.len() == 0 && is_idle(r)
}

/// Nothing loaded, recorded, pending, typed or shown; one loop.
pub open spec fn is_idle(r: MacrosState) -> bool {
    &&& r.new_name@.len() == 0
    &&& r.loaded is None
    &&& r.loaded_event_count == 0
    &&& r.loaded_duration_ms == 0
    &&& r.loops == 1
    &&& !r.recording
    &&& r.record_started_at_ns is None
    &&& r.record_event_count == 0
    &&& r.feedback is None
    &&& !r.capturing_record_hotkey
    &&& r.pending is None
}

impl Default for MacrosState {
    fn default() -> (r: Self)
        ensures
            is_fresh(r),
    {
        MacrosState {
            list: Vec::new(),
            new_name: String::new(),
            loaded: None,
            loaded_event_count: 0,
            loaded_duration_ms: 0,
            loops: 1,
            recording: false,
            record_started_at_ns: None,
            record_event_count: 0,
            feedback: None,
            capturing_record_hotkey: false,
            pending: None,
        }
    }
}

/// A request made on the macros tab (or by the record hotkey).
#[derive(Debug, Clone)]
pub enum MacroAction {
    StartRecording,
    StopRecording,
    SavePendingMacro(String),
    DiscardPendingMacro,
    LoadMacro(String),
    DeleteMacro(String),
    SetLoops(u32),
    Play,
    Stop,
    SetRecordHotkey(HotkeyBinding),
}

} // verus!
