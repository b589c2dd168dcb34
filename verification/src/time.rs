//! The count-up time: hours, minutes and seconds held as separate fields,
//! advanced one second at a time with carry across the minute and hour
//! marks, bounded like every time value to one day less one second.
use vstd::prelude::*;

use crate::TimerError;
use crate::clock::MAX_SECONDS;
use crate::render::{hms_text, hms_string};

verus! {

/// An elapsed time split into components, counting upward from zero.
#[derive(Clone, Copy, Debug, PartialEq, Eq, Structural)]
pub struct Time {
    pub hours: u8,
    pub minutes: u8,
    pub seconds: u8,
}

impl Time {
    /// Every component is in its natural range: hours up to 23, minutes and
    /// seconds up to 59, so the whole value stays within a day.
    pub open spec fn wf(&self) -> bool {
        self.hours <= 23 && self.minutes <= 59 && self.seconds <= 59
    }

    /// The elapsed whole seconds.
    pub open spec fn as_seconds(&self) -> int {
        self.hours * 3600 + self.minutes * 60 + self.seconds
    }

    /// Starts at zero.
    pub fn new() -> (t: Time)
        ensures
            t.wf(),
            t == (Time { hours: 0, minutes: 0, seconds: 0 }),
    {
        Time { seconds: 0, minutes: 0, hours: 0 }
    }

    /// Advances by one second, carrying into minutes at sixty seconds and
    /// into hours at sixty minutes; at the one-day ceiling it fails with
    /// `Boundary` and leaves the value unchanged.
    pub fn increment_second(&mut self) -> (r: Result<(), TimerError>)
        requires
            old(self).wf(),
        ensures
            final(self).wf(),
            old(self).as_seconds() == MAX_SECONDS as int ==> (r == Err::<(), TimerError>(
                TimerError::Boundary,
            ) && *final(self) == *old(self)),
            old(self).as_seconds() < MAX_SECONDS as int ==> (r == Ok::<(), TimerError>(())
                && final(self).as_seconds() == old(self).as_seconds() + 1),
            old(self).seconds < 59 ==> *final(self) == (Time {
                seconds: (old(self).seconds + 1) as u8,
                ..*old(self)
            }),
            old(self).seconds == 59 && old(self).minutes < 59 ==> *final(self) == (Time {
                seconds: 0,
                minutes: (old(self).minutes + 1) as u8,
                ..*old(self)
            }),
            old(self).seconds == 59 && old(self).minutes == 59 && old(self).hours < 23
                ==> *final(self) == (Time {
                seconds: 0,
                minutes: 0,
                hours: (old(self).hours + 1) as u8,
            }),
    {
        if self.hours == 23 && self.minutes == 59 && self.seconds == 59 {
            return Err(TimerError::Boundary);
        }
        self.seconds = (self.seconds + 1) % 60;
        if self.seconds != 0 {
            return Ok(());
        }
        self.minutes = (self.minutes + 1) % 60;
        if self.minutes != 0 {
            return Ok(());
        }
        self.hours = self.hours + 1;
        Ok(())
    }

    /// Formats the elapsed time as zero-padded `HH:MM:SS`.
    pub fn render(&self) -> (r: String)
        requires
            self.wf(),
        ensures
            r@ == hms_text(self.hours as int, self.minutes as int, self.seconds as int),
    {
        hms_string(self.hours as u64, self.minutes as u64, self.seconds as u64)
    }
}

} // verus!
