//! A monotonic millisecond clock driven by a periodic hardware tick.
//!
//! The timer peripheral fires once per millisecond; the owner of the
//! peripheral waits for that event and then calls [`Timer::tick`], so the
//! counter advances by exactly one per period. The counter is never reset
//! while powered, and exhausting the full `u64` range is treated as
//! unreachable, so `tick` requires that the counter has room left.

use vstd::prelude::*;

verus! {

/// A monotonic millisecond counter. One hardware timer period equals one
/// millisecond, so the counter reads directly as milliseconds since start.
pub struct Timer {
    millis: u64,
}

impl Timer {
    /// The current counter value, for use in contracts.
    pub closed spec fn spec_millis(&self) -> u64 {
        self.millis
    }

    /// A fresh clock, reading zero. The caller starts the hardware timer
    /// peripheral itself; this type only owns the derived counter.
    pub fn new() -> (t: Timer)
        ensures
            t.spec_millis() == 0,
    {
        Timer { millis: 0 }
    }

    /// Advance the clock by one period. The caller invokes this exactly
    /// once per elapsed hardware timer period, after blocking on the
    /// peripheral's event; the counter then increments by exactly 1.
    pub fn tick(&mut self)
        requires
            old(self).spec_millis() < u64::MAX,
        ensures
            final(self).spec_millis() == old(self).spec_millis() + 1,
    {
        self.millis = self.millis + 1;
    }

    /// The milliseconds elapsed since start: non-blocking, side-effect-free.
    pub fn millis(&self) -> (r: u64)
        ensures
            r == self.spec_millis(),
    {
        self.millis
    }
}

} // verus!
