//! The bounded time value and the countdown clock built on it.
//!
//! A `TimeValue` is a duration in whole seconds, bounded to one day less one
//! second. Increment and decrement saturate: at a boundary they fail with
//! `TimerError::Boundary` and leave the value unchanged. A `Clock` wraps
//! exactly one `TimeValue` and is the unit the rest of the timer manipulates.
use vstd::prelude::*;
use vstd::arithmetic::div_mod::lemma_fundamental_div_mod_converse;

use crate::TimerError;
use crate::render::{clock_text, hms_text, hms_string};

verus! {

/// One second short of twenty-four hours: the ceiling of a time value.
pub const MAX_SECONDS: u64 = 86399;

/// Whether each component is in its natural range: hours up to 23, minutes
/// and seconds up to 59.
pub open spec fn valid_time(hours: u64, minutes: u64, seconds: u64) -> bool {
    hours <= 23 && minutes <= 59 && seconds <= 59
}

/// The flat second count of the components.
pub open spec fn total_of(hours: u64, minutes: u64, seconds: u64) -> int {
    hours * 3600 + minutes * 60 + seconds
}

/// Reports whether each component is in its natural range.
pub fn is_valid_time(hours: u64, minutes: u64, seconds: u64) -> (b: bool)
    ensures
        b == valid_time(hours, minutes, seconds),
{
    hours <= 23 && minutes <= 59 && seconds <= 59
}

/// A duration in whole seconds, bounded to [0, `MAX_SECONDS`].
#[derive(Clone, Copy, Debug, PartialEq, Eq, Structural)]
pub struct TimeValue {
    total: u64,
}

impl TimeValue {
    /// The stored second count.
    pub closed spec fn as_seconds(&self) -> int {
        self.total as int
    }

    /// The value lies within its one-day bound.
    pub open spec fn wf(&self) -> bool {
        0 <= self.as_seconds() <= MAX_SECONDS as int
    }

    /// Validates the components and stores their flat second count; rejects
    /// any component outside its natural range.
    pub fn build(hours: u64, minutes: u64, seconds: u64) -> (r: Result<TimeValue, TimerError>)
        ensures
            valid_time(hours, minutes, seconds) ==> (r matches Ok(t)
                && t.wf()
                && t.as_seconds() == total_of(hours, minutes, seconds)),
            !valid_time(hours, minutes, seconds) ==> r == Err::<TimeValue, TimerError>(
                TimerError::InvalidTime,
            ),
    {
        if is_valid_time(hours, minutes, seconds) {
            Ok(TimeValue { total: seconds + minutes * 60 + hours * 3600 })
        } else {
            Err(TimerError::InvalidTime)
        }
    }

    /// The stored second count, as a machine integer.
    pub fn total_seconds(&self) -> (n: u64)
        ensures
            n as int == self.as_seconds(),
    {
        self.total
    }

    /// Adds one second; at the ceiling it fails with `Boundary` and leaves
    /// the value unchanged.
    pub fn increment(&mut self) -> (r: Result<(), TimerError>)
        requires
            old(self).wf(),
        ensures
            final(self).wf(),
            old(self).as_seconds() == MAX_SECONDS as int ==> (r == Err::<(), TimerError>(
                TimerError::Boundary,
            ) && final(self).as_seconds() == old(self).as_seconds()),
            old(self).as_seconds() < MAX_SECONDS as int ==> (r == Ok::<(), TimerError>(())
                && final(self).as_seconds() == old(self).as_seconds() + 1),
    {
        if self.total == MAX_SECONDS {
            Err(TimerError::Boundary)
        } else {
            self.total = self.total + 1;
            Ok(())
        }
    }

    /// Subtracts one second; at zero it fails with `Boundary` and leaves the
    /// value unchanged.
    pub fn decrement(&mut self) -> (r: Result<(), TimerError>)
        requires
            old(self).wf(),
        ensures
            final(self).wf(),
            old(self).as_seconds() == 0 ==> (r == Err::<(), TimerError>(TimerError::Boundary)
                && final(self).as_seconds() == old(self).as_seconds()),
            old(self).as_seconds() > 0 ==> (r == Ok::<(), TimerError>(())
                && final(self).as_seconds() == old(self).as_seconds() - 1),
    {
        if self.total == 0 {
            Err(TimerError::Boundary)
        } else {
            self.total = self.total - 1;
            Ok(())
        }
    }

    /// Formats the value as zero-padded `HH:MM:SS`.
    pub fn render(&self) -> (r: String)
        requires
            self.wf(),
        ensures
            r@ == clock_text(self.as_seconds()),
    {
        let hours = self.total / 3600;
        let minutes = (self.total % 3600) / 60;
        let seconds = self.total % 60;
        assert(hours < 100 && minutes < 100 && seconds < 100) by (nonlinear_arith)
            requires
                self.total <= 86399,
                hours == self.total / 3600,
                minutes == (self.total % 3600) / 60,
                seconds == self.total % 60,
        ;
        hms_string(hours, minutes, seconds)
    }
}

/// A countdown clock: wraps exactly one `TimeValue`.
#[derive(Clone, Copy, Debug, PartialEq, Eq, Structural)]
pub struct Clock {
    value: TimeValue,
}

impl Clock {
    /// The remaining seconds.
    pub closed spec fn as_seconds(&self) -> int {
        self.value.as_seconds()
    }

    /// The remaining seconds lie within the one-day bound.
    pub open spec fn wf(&self) -> bool {
        0 <= self.as_seconds() <= MAX_SECONDS as int
    }

    /// Builds a clock from components in range; `TimeValue::build` is the
    /// checked form for components that may be out of range.
    pub fn build(hours: u64, minutes: u64, seconds: u64) -> (c: Clock)
        requires
            valid_time(hours, minutes, seconds),
        ensures
            c.wf(),
            c.as_seconds() == total_of(hours, minutes, seconds),
    {
        let total = seconds + minutes * 60 + hours * 3600;
        Clock { value: TimeValue { total } }
    }

    /// Replaces the remaining time with the given components; rejects any
    /// component outside its natural range and then leaves the clock unchanged.
    pub fn reset(&mut self, hours: u64, minutes: u64, seconds: u64) -> (r: Result<(), TimerError>)
        ensures
            valid_time(hours, minutes, seconds) ==> (r == Ok::<(), TimerError>(())
                && final(self).wf()
                && final(self).as_seconds() == total_of(hours, minutes, seconds)),
            !valid_time(hours, minutes, seconds) ==> (r == Err::<(), TimerError>(
                TimerError::InvalidTime,
            ) && *final(self) == *old(self)),
    {
        match TimeValue::build(hours, minutes, seconds) {
            Ok(value) => {
                self.value = value;
                Ok(())
            },
            Err(e) => Err(e),
        }
    }

    /// Removes one second; at zero it fails with `Boundary` and leaves the
    /// clock unchanged.
    pub fn decrement_second(&mut self) -> (r: Result<(), TimerError>)
        requires
            old(self).wf(),
        ensures
            final(self).wf(),
            old(self).as_seconds() == 0 ==> (r == Err::<(), TimerError>(TimerError::Boundary)
                && final(self).as_seconds() == old(self).as_seconds()),
            old(self).as_seconds() > 0 ==> (r == Ok::<(), TimerError>(())
                && final(self).as_seconds() == old(self).as_seconds() - 1),
    {
        self.value.decrement()
    }

    /// The remaining seconds, as a machine integer.
    pub fn total_seconds(&self) -> (n: u64)
        ensures
            n as int == self.as_seconds(),
    {
        self.value.total_seconds()
    }

    /// Formats the remaining time as zero-padded `HH:MM:SS`.
    pub fn render(&self) -> (r: String)
        requires
            self.wf(),
        ensures
            r@ == clock_text(self.as_seconds()),
    {
        self.value.render()
    }
}

/// For components in their natural ranges, rendering the flat second count
/// shows exactly those components, zero-padded: the text of
/// `hours*3600 + minutes*60 + seconds` is `HH:MM:SS`.
pub proof fn lemma_clock_text_components(hours: u64, minutes: u64, seconds: u64)
    requires
        valid_time(hours, minutes, seconds),
    ensures
        clock_text(total_of(hours, minutes, seconds)) == hms_text(
            hours as int,
            minutes as int,
            seconds as int,
        ),
{
    let total = total_of(hours, minutes, seconds);
    lemma_fundamental_div_mod_converse(
        total,
        3600,
        hours as int,
        minutes as int * 60 + seconds as int,
    );
    lemma_fundamental_div_mod_converse(
        total,
        60,
        hours as int * 60 + minutes as int,
        seconds as int,
    );
    lemma_fundamental_div_mod_converse(
        minutes as int * 60 + seconds as int,
        60,
        minutes as int,
        seconds as int,
    );
}

} // verus!
