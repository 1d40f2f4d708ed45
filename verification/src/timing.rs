//! Decomposition of a wall-clock reading into dial positions.

use vstd::prelude::*;

verus! {

/// The time shown by the clock, derived once per frame from seconds since a
/// fixed epoch. Immutable within a frame.
#[derive(Clone, Copy, PartialEq, Eq, Structural, Debug)]
pub struct TimeSample {
    pub hours: u64,
    pub minutes: u64,
    pub seconds: u64,
}

impl TimeSample {
    /// Every field lies inside its dial period.
    pub open spec fn wf(self) -> bool {
        self.hours < 12 && self.minutes < 60 && self.seconds < 60
    }
}

/// Splits a count of seconds since the epoch into the hour, minute and
/// second positions shown on a 12-hour dial.
pub fn time_sample_of(total_seconds: u64) -> (t: TimeSample)
    ensures
        t.hours == (total_seconds as int / 3600) % 12,
        t.minutes == (total_seconds as int / 60) % 60,
        t.seconds == total_seconds as int % 60,
        t.wf(),
{
    TimeSample {
        hours: (total_seconds / 3600) % 12,
        minutes: (total_seconds / 60) % 60,
        seconds: total_seconds % 60,
    }
}

} // verus!
