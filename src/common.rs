//! Time on the monotonic clock: instants and durations in microsecond ticks.
use vstd::prelude::*;

verus! {

/// A point in time: microsecond ticks since boot. Ordered by tick count.
#[derive(PartialEq, Eq, Structural, PartialOrd, Ord, Copy, Clone, Debug)]
pub struct Instant {
    ticks: u64,
}

/// A span of time in microsecond ticks.
#[derive(PartialEq, Eq, Structural, PartialOrd, Ord, Copy, Clone, Debug)]
pub struct Duration {
    ticks: u64,
}

/// An instant that the clock cannot represent: no schedule is valid past it.
#[derive(PartialEq, Eq, Structural, Copy, Clone, Debug)]
pub struct InstantOverflow;

impl View for Instant {
    type V = u64;

    closed spec fn view(&self) -> u64 {
        self.ticks
    }
}

impl View for Duration {
    type V = u64;

    closed spec fn view(&self) -> u64 {
        self.ticks
    }
}

impl Instant {
    /// The instant `ticks` microseconds after boot.
    pub fn from_ticks(ticks: u64) -> (r: Self)
        ensures
            r@ == ticks,
    {
        Self { ticks }
    }

    /// Microseconds since boot.
    pub fn ticks(&self) -> (r: u64)
        ensures
            r == self@,
    {
        self.ticks
    }

    /// The instant `d` after this one; `None` where it is past the clock's range.
    pub fn checked_add_duration(self, d: Duration) -> (r: Option<Self>)
        ensures
            self@ + d@ <= u64::MAX ==> (r matches Some(t) && t@ == self@ + d@),
            self@ + d@ > u64::MAX ==> r is None,
    {
        match self.ticks.checked_add(d.ticks) {
            Some(ticks) => Some(Self { ticks }),
            None => None,
        }
    }

    /// The time from `earlier` to this instant; `None` where `earlier` is later.
    pub fn checked_duration_since(self, earlier: Self) -> (r: Option<Duration>)
        ensures
            earlier@ <= self@ ==> (r matches Some(d) && d@ == self@ - earlier@),
            earlier@ > self@ ==> r is None,
    {
        if earlier.ticks <= self.ticks {
            Some(Duration { ticks: self.ticks - earlier.ticks })
        } else {
            None
        }
    }
}

impl Duration {
    /// A span of `ticks` microseconds.
    pub fn from_ticks(ticks: u64) -> (r: Self)
        ensures
            r@ == ticks,
        no_unwind
    {
        Self { ticks }
    }

    /// The span in microseconds.
    pub fn ticks(&self) -> (r: u64)
        ensures
            r == self@,
        no_unwind
    {
        self.ticks
    }

    /// The span in whole milliseconds, rounded down.
    pub fn to_millis(&self) -> (r: u64)
        ensures
            r == self@ / 1000,
    {
        self.ticks / 1000
    }

    /// Whether the span is empty.
    pub fn is_zero(&self) -> (r: bool)
        ensures
            r == (self@ == 0),
    {
        self.ticks == 0
    }

    /// The sum of two spans; `None` where it is past the clock's range.
    pub fn checked_add(self, other: Self) -> (r: Option<Self>)
        ensures
            self@ + other@ <= u64::MAX ==> (r matches Some(d) && d@ == self@ + other@),
            self@ + other@ > u64::MAX ==> r is None,
    {
        match self.ticks.checked_add(other.ticks) {
            Some(ticks) => Some(Self { ticks }),
            None => None,
        }
    }
}

} // verus!
