//! The daily on-window of one device.

use vstd::prelude::*;

verus! {

/// One actuation window per day: the device should be on from
/// `start_offset_seconds` after local midnight for `duration_seconds`.
///
/// The end of the window, `start_offset_seconds + duration_seconds`, may
/// arithmetically exceed one day; the window never wraps past midnight, so
/// any part of it that lies beyond 86400 is unreachable by a time of day.
#[derive(Clone, Copy, PartialEq, Eq, Structural, Debug)]
pub struct Schedule {
    /// Seconds after local midnight when the device should turn on.
    pub start_offset_seconds: u32,
    /// Length of the on-window, in seconds. Zero means always off.
    pub duration_seconds: u32,
}

impl Schedule {
    /// The half-open window `[start, start + duration)` contains `now`.
    pub open spec fn contains(self, now: u32) -> bool {
        self.start_offset_seconds <= now
            && (now as int) < self.start_offset_seconds + self.duration_seconds
    }

    pub fn new(start_offset_seconds: u32, duration_seconds: u32) -> (s: Schedule)
        ensures
            s.start_offset_seconds == start_offset_seconds,
            s.duration_seconds == duration_seconds,
    {
        Schedule { start_offset_seconds, duration_seconds }
    }

    /// Whether the device should be on at time-of-day `now`.
    ///
    /// `now == start` turns the device on; `now == start + duration` turns it
    /// off in the same tick that reaches it. A zero duration yields an empty
    /// window, so the device is always off.
    pub fn should_be_on(&self, now: u32) -> (on: bool)
        ensures
            on == self.contains(now),
    {
        now >= self.start_offset_seconds && now - self.start_offset_seconds < self.duration_seconds
    }
}

} // verus!
