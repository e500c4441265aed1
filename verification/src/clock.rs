//! Elapsed-time accounting.
//!
//! One tick arrives per wall-clock second from the outside scheduler;
//! the clock counts it only while the session is running, and reports
//! the time remaining of a target duration, floored at zero.

use vstd::prelude::*;

verus! {

/// Seconds remaining of `total_secs` after `elapsed_secs` have passed:
/// the difference, never below zero.
pub open spec fn remaining_spec(elapsed_secs: u32, total_secs: u32) -> int {
    if elapsed_secs <= total_secs {
        total_secs - elapsed_secs
    } else {
        0
    }
}

/// Whole-second counter of one session's elapsed time.
#[derive(Clone, Copy, PartialEq, Eq, Structural, Debug)]
pub struct Clock {
    pub time_secs: u32,
}

impl Clock {
    pub fn new() -> (r: Clock)
        ensures
            r.time_secs == 0,
    {
        Clock { time_secs: 0 }
    }

    /// Counts one received tick, but only while the session runs: ticks
    /// that arrive while idle or after the session finished are dropped.
    /// The counter saturates rather than wrapping.
    pub fn tick(&mut self, running: bool)
        ensures
            running && old(self).time_secs < u32::MAX ==> final(self).time_secs == old(
                self,
            ).time_secs + 1,
            running && old(self).time_secs == u32::MAX ==> final(self).time_secs == u32::MAX,
            !running ==> *final(self) == *old(self),
    {
        if running && self.time_secs < u32::MAX {
            self.time_secs = self.time_secs + 1;
        }
    }

    /// Seconds left of the target duration; by construction never a
    /// negative value.
    pub fn remaining(&self, total_secs: u32) -> (r: u32)
        ensures
            r == remaining_spec(self.time_secs, total_secs),
            r >= 0,
    {
        if self.time_secs <= total_secs {
            total_secs - self.time_secs
        } else {
            0
        }
    }

    pub fn reset(&mut self)
        ensures
            final(self).time_secs == 0,
    {
        self.time_secs = 0;
    }
}

/// The remaining time is never negative, whatever the elapsed time and
/// the target duration are.
pub proof fn lemma_remaining_nonnegative(elapsed_secs: u32, total_secs: u32)
    ensures
        remaining_spec(elapsed_secs, total_secs) >= 0,
{
}

} // verus!
