use vstd::prelude::*;

use crate::engine::command::StopAfter;

verus! {

/// The choices of the stop-condition selector.
#[derive(Debug, Clone, Copy, PartialEq, Eq, Structural)]
pub enum StopMode {
    Never,
    Count,
    Duration,
}

/// Count preset when switching to a count-based stop.
pub const DEFAULT_STOP_COUNT: u64 = 100;
/// Duration preset (30 s) when switching to a time-based stop.
pub const DEFAULT_STOP_MS: u64 = 30_000;

/// The selector position that a stop condition shows.
pub open spec fn mode_of(stop: StopAfter) -> StopMode {
    match stop {
        StopAfter::Never => StopMode::Never,
        StopAfter::Count { .. } => StopMode::Count,
        StopAfter::Duration { .. } => StopMode::Duration,
    }
}

/// The selector position for a stop condition.
pub fn stop_mode(stop: &StopAfter) -> (m: StopMode)
    ensures
        m == mode_of(*stop),
{
    match stop {
        StopAfter::Never => StopMode::Never,
        StopAfter::Count { .. } => StopMode::Count,
        StopAfter::Duration { .. } => StopMode::Duration,
    }
}

/// The stop condition after the selector is set to `mode`: unchanged when it
/// already shows that mode, else the mode's preset (100 events, 30 s).
pub fn select_stop_mode(stop: StopAfter, mode: StopMode) -> (r: StopAfter)
    ensures
        r == (if mode == mode_of(stop) {
            stop
        } else {
            match mode {
                StopMode::Never => StopAfter::Never,
                StopMode::Count => StopAfter::Count { n: DEFAULT_STOP_COUNT },
                StopMode::Duration => StopAfter::Duration { ms: DEFAULT_STOP_MS },
            }
        }),
        mode_of(r) == mode,
{
    if stop_mode(&stop) == mode {
        return stop;
    }
    match mode {
        StopMode::Never => StopAfter::Never,
        StopMode::Count => StopAfter::Count { n: DEFAULT_STOP_COUNT },
        StopMode::Duration => StopAfter::Duration { ms: DEFAULT_STOP_MS },
    }
}

} // verus!
