//! Finalized session records and the selectable target durations.
//!
//! A `Stat` is the immutable result of one completed or timed-out typing
//! session. Words-per-minute and accuracy are stored in hundredths (the
//! five-characters-per-word convention), so the record holds only plain
//! integers.

use vstd::prelude::*;

verus! {

/// Selectable target durations for a typing session, cycled by the
/// duration shortcut.
#[derive(Clone, Copy, PartialEq, Eq, Structural, Debug)]
pub enum TypingDuration {
    ThirtySec,
    Minute,
    ThreeMinutes,
}

impl TypingDuration {
    /// Length of the duration in whole seconds.
    pub open spec fn seconds_spec(self) -> u32 {
        match self {
            TypingDuration::ThirtySec => 30,
            TypingDuration::Minute => 60,
            TypingDuration::ThreeMinutes => 180,
        }
    }

    pub fn seconds(self) -> (r: u32)
        ensures
            r == self.seconds_spec(),
            r > 0,
    {
        match self {
            TypingDuration::ThirtySec => 30,
            TypingDuration::Minute => 60,
            TypingDuration::ThreeMinutes => 180,
        }
    }

    /// Cyclic successor, used when the duration shortcut is pressed.
    pub open spec fn next_spec(self) -> TypingDuration {
        match self {
            TypingDuration::ThirtySec => TypingDuration::Minute,
            TypingDuration::Minute => TypingDuration::ThreeMinutes,
            TypingDuration::ThreeMinutes => TypingDuration::ThirtySec,
        }
    }

    pub fn next(self) -> (r: TypingDuration)
        ensures
            r == self.next_spec(),
    {
        match self {
            TypingDuration::ThirtySec => TypingDuration::Minute,
            TypingDuration::Minute => TypingDuration::ThreeMinutes,
            TypingDuration::ThreeMinutes => TypingDuration::ThirtySec,
        }
    }
}

/// Average words per minute, in hundredths of a word per minute:
/// `(correct / 5) / (elapsed / 60)`, scaled by 100. Zero elapsed time
/// yields zero.
pub open spec fn wpm_hundredths(correct: nat, elapsed_secs: nat) -> nat {
    if elapsed_secs == 0 {
        0
    } else {
        1200 * correct / elapsed_secs
    }
}

/// Accuracy in hundredths of a percent: `correct / (correct + errors)`,
/// scaled by 10000. An empty session (nothing classified) yields zero.
pub open spec fn accuracy_hundredths(correct: nat, errors: nat) -> nat {
    if correct + errors == 0 {
        0
    } else {
        10000 * correct / (correct + errors)
    }
}

/// Correct characters out of `total_chars` typed characters when
/// `error_count` of them were wrong.
pub open spec fn correct_of(total_chars: nat, error_count: nat) -> nat {
    if error_count <= total_chars {
        (total_chars - error_count) as nat
    } else {
        0
    }
}

/// Immutable record of one finished typing session. Created only when a
/// session finalizes; never mutated afterwards; identity is its position
/// in the append-only stats log.
#[derive(Clone, Copy, PartialEq, Eq, Structural, Debug)]
pub struct Stat {
    pub duration: TypingDuration,
    /// Average speed in hundredths of a word per minute.
    pub average_wpm: u64,
    pub error_count: u32,
    pub elapsed_secs: u32,
    /// Accuracy in hundredths of a percent (0 ..= 10000).
    pub accuracy: u32,
}

impl Stat {
    /// Builds the record for a session that typed `total_chars` characters,
    /// `error_count` of them wrong, over `elapsed_secs` seconds.
    pub fn new(
        duration: TypingDuration,
        total_chars: u32,
        error_count: u32,
        elapsed_secs: u32,
    ) -> (r: Stat)
        ensures
            r.duration == duration,
            r.error_count == error_count,
            r.elapsed_secs == elapsed_secs,
            r.average_wpm == wpm_hundredths(
                correct_of(total_chars as nat, error_count as nat),
                elapsed_secs as nat,
            ),
            r.accuracy == accuracy_hundredths(
                correct_of(total_chars as nat, error_count as nat),
                error_count as nat,
            ),
            r.accuracy <= 10000,
    {
        let correct: u32 = if error_count <= total_chars {
            total_chars - error_count
        } else {
            0
        };

        let average_wpm: u64 = if elapsed_secs == 0 {
            0
        } else {
            1200u64 * (correct as u64) / (elapsed_secs as u64)
        };

        let accuracy: u32 = if correct == 0 && error_count == 0 {
            0
        } else {
            let c: u64 = correct as u64;
            let e: u64 = error_count as u64;
            let acc64: u64 = 10000u64 * c / (c + e);
            proof {
                lemma_accuracy_bounded(c as nat, e as nat);
            }
            acc64 as u32
        };

        Stat { duration, average_wpm, error_count, elapsed_secs, accuracy }
    }

    pub fn get_average_wpm(&self) -> (r: u64)
        ensures
            r == self.average_wpm,
    {
        self.average_wpm
    }

    pub fn get_accuracy(&self) -> (r: u32)
        ensures
            r == self.accuracy,
    {
        self.accuracy
    }

    pub fn get_error_count(&self) -> (r: u32)
        ensures
            r == self.error_count,
    {
        self.error_count
    }

    pub fn get_elapsed_secs(&self) -> (r: u32)
        ensures
            r == self.elapsed_secs,
    {
        self.elapsed_secs
    }

    pub fn get_duration(&self) -> (r: TypingDuration)
        ensures
            r == self.duration,
    {
        self.duration
    }
}

/// Accuracy can never exceed one hundred percent.
pub proof fn lemma_accuracy_bounded(correct: nat, errors: nat)
    requires
        correct + errors > 0,
    ensures
        accuracy_hundredths(correct, errors) <= 10000,
{
    let d = correct + errors;
    assert(10000 * correct <= 10000 * d) by (nonlinear_arith)
        requires
            correct <= d,
    ;
    assert(10000 * correct / d <= 10000 * d / d) by (nonlinear_arith)
        requires
            10000 * correct <= 10000 * d,
            d > 0,
    ;
    assert(10000 * d / d == 10000) by (nonlinear_arith)
        requires
            d > 0,
    ;
}

/// Timestamped marker of one finished session, kept in the activities
/// collection of the store.
#[derive(Clone, Copy, PartialEq, Eq, Structural, Debug)]
pub struct Activity {
    /// Seconds since an epoch chosen by the caller.
    pub timestamp_secs: u64,
}

} // verus!
