//! Spans of time and points on a monotonic clock, in whole nanoseconds.
use vstd::prelude::*;

verus! {

/// Nanoseconds of the longest span: `u64::MAX` seconds and 999 999 999 nanoseconds.
pub const MAX_NANOS: u128 = 18_446_744_073_709_551_615_999_999_999;

/// A span of time.
#[derive(Clone, Copy, Debug, PartialEq, Eq, PartialOrd, Ord, Structural)]
pub struct Duration {
    pub nanos: u128,
}

impl View for Duration {
    type V = int;

    open spec fn view(&self) -> int {
        self.nanos as int
    }
}

/// The longest span that is not longer than `n` nanoseconds.
pub open spec fn clamp_nanos(n: int) -> int {
    if n < 0 {
        0
    } else if n > MAX_NANOS {
        MAX_NANOS as int
    } else {
        n
    }
}

impl Duration {
    /// No time at all.
    pub fn zero() -> (r: Duration)
        ensures
            r@ == 0,
    {
        Duration { nanos: 0 }
    }

    pub fn from_secs(secs: u64) -> (r: Duration)
        ensures
            r@ == secs * 1_000_000_000,
    {
        Duration { nanos: secs as u128 * 1_000_000_000 }
    }

    pub fn from_millis(millis: u64) -> (r: Duration)
        ensures
            r@ == millis * 1_000_000,
    {
        Duration { nanos: millis as u128 * 1_000_000 }
    }

    pub fn from_micros(micros: u64) -> (r: Duration)
        ensures
            r@ == micros * 1_000,
    {
        Duration { nanos: micros as u128 * 1_000 }
    }

    pub fn from_nanos(nanos: u64) -> (r: Duration)
        ensures
            r@ == nanos,
    {
        Duration { nanos: nanos as u128 }
    }

    /// Whole milliseconds in the span.
    pub fn as_millis(&self) -> (r: u128)
        ensures
            r == self@ / 1_000_000,
    {
        self.nanos / 1_000_000
    }

    /// Whole seconds in the span.
    pub fn as_secs(&self) -> (r: u128)
        ensures
            r == self@ / 1_000_000_000,
    {
        self.nanos / 1_000_000_000
    }

    pub fn is_zero(&self) -> (r: bool)
        ensures
            r == (self@ == 0),
    {
        self.nanos == 0
    }

    /// The sum, at most the longest span.
    pub fn saturating_add(self, other: Duration) -> (r: Duration)
        ensures
            r@ == clamp_nanos(self@ + other@),
    {
        if self.nanos >= MAX_NANOS || other.nanos >= MAX_NANOS - self.nanos {
            Duration { nanos: MAX_NANOS }
        } else {
            Duration { nanos: self.nanos + other.nanos }
        }
    }

    /// The difference, or no time if `other` is longer.
    pub fn saturating_sub(self, other: Duration) -> (r: Duration)
        ensures
            r@ == if self@ >= other@ { self@ - other@ } else { 0 },
    {
        if self.nanos >= other.nanos {
            Duration { nanos: self.nanos - other.nanos }
        } else {
            Duration { nanos: 0 }
        }
    }

    /// The shorter of two spans.
    pub fn shorter(self, other: Duration) -> (r: Duration)
        ensures
            r@ == if self@ <= other@ { self@ } else { other@ },
    {
        if self.nanos <= other.nanos {
            self
        } else {
            other
        }
    }

    /// The longer of two spans.
    pub fn longer(self, other: Duration) -> (r: Duration)
        ensures
            r@ == if self@ >= other@ { self@ } else { other@ },
    {
        if self.nanos >= other.nanos {
            self
        } else {
            other
        }
    }
}

impl Default for Duration {
    fn default() -> (r: Self)
        ensures
            r@ == 0,
    {
        Duration { nanos: 0 }
    }
}

/// A point on a monotonic clock, as the time since the clock's start.
#[derive(Clone, Copy, Debug, PartialEq, Eq, PartialOrd, Ord, Structural)]
pub struct Instant {
    pub nanos: u128,
}

impl View for Instant {
    type V = int;

    open spec fn view(&self) -> int {
        self.nanos as int
    }
}

impl Instant {
    /// The point that lies `d` later.
    pub fn plus(self, d: Duration) -> (r: Instant)
        requires
            self@ + d@ <= u128::MAX,
        ensures
            r@ == self@ + d@,
    {
        Instant { nanos: self.nanos + d.nanos }
    }

    /// The time from `earlier` to here, or no time if `earlier` lies later.
    pub fn saturating_duration_since(self, earlier: Instant) -> (r: Duration)
        ensures
            r@ == if self@ >= earlier@ { self@ - earlier@ } else { 0 },
    {
        if self.nanos >= earlier.nanos {
            Duration { nanos: self.nanos - earlier.nanos }
        } else {
            Duration { nanos: 0 }
        }
    }
}

} // verus!
