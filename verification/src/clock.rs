//! Time as the library sees it: nanoseconds on a monotonic clock.
//!
//! A [`Clock`] is started once and read whenever the reducer runs; a reading is
//! a [`Moment`], a plain number that rules can compare.

use std::time::{Duration, Instant};
use vstd::prelude::*;

verus! {

/// The standard library's monotonic instant, carried as an opaque value.
#[verifier::external_type_specification]
#[verifier::external_body]
pub struct ExInstant(Instant);

/// `Instant::now` reads the monotonic clock. Nothing is claimed of the reading.
pub assume_specification[ Instant::now ]() -> Instant;

/// `Instant::elapsed` reads the monotonic clock and gives the time since
/// `origin`. Nothing is claimed of the reading.
pub assume_specification[ Instant::elapsed ](origin: &Instant) -> Duration;

/// `Duration::as_nanos` gives a duration in nanoseconds. The durations here are
/// readings of the clock, so nothing is claimed of their length.
pub assume_specification[ Duration::as_nanos ](duration: &Duration) -> u128;

/// Nanoseconds in a millisecond.
pub const NANOS_PER_MILLI: i64 = 1_000_000;

/// A point in time: nanoseconds after the start of the clock that read it.
/// Negative values lie before that start.
#[derive(Debug, Clone, Copy, PartialEq, Eq, Structural)]
pub struct Moment {
    pub nanos: i64,
}

/// A monotonic clock, counting from the moment it was started.
#[derive(Debug, Clone, Copy)]
pub struct Clock {
    origin: Instant,
}

impl Clock {
    /// The instant from which the clock counts.
    pub closed spec fn started_at(self) -> Instant {
        self.origin
    }

    /// A clock that counts from `origin`.
    pub fn starting_at(origin: Instant) -> (clock: Clock)
        ensures
            clock.started_at() == origin,
    {
        Clock { origin }
    }

    /// Start counting from the current instant, whichever that is.
    pub fn start() -> Clock {
        Clock::starting_at(Instant::now())
    }

    /// The current reading: the moment of however many nanoseconds have passed
    /// since the start (see [`Moment::after_start`]). It never lies before the
    /// start.
    pub fn now(&self) -> (now: Moment)
        ensures
            now.nanos >= 0,
    {
        Moment::after_start(self.origin.elapsed().as_nanos())
    }
}

/// Nanoseconds from `earlier` to `later`, or zero where `later` comes first.
pub open spec fn nanos_between(earlier: Moment, later: Moment) -> int {
    if later.nanos > earlier.nanos {
        later.nanos - earlier.nanos
    } else {
        0
    }
}

/// The moment `millis` after `from`, held at the largest representable moment.
pub open spec fn moment_after(from: Moment, millis: int) -> Moment {
    let nanos = from.nanos + millis * NANOS_PER_MILLI;
    Moment {
        nanos: if nanos <= i64::MAX {
            nanos as i64
        } else {
            i64::MAX
        },
    }
}

impl Moment {
    /// The moment `nanos` nanoseconds after the start of the clock, held at the
    /// largest representable moment after some centuries.
    pub fn after_start(nanos: u128) -> (moment: Moment)
        ensures
            moment.nanos == (if nanos <= i64::MAX {
                nanos as int
            } else {
                i64::MAX as int
            }),
    {
        if nanos <= i64::MAX as u128 {
            Moment { nanos: nanos as i64 }
        } else {
            Moment { nanos: i64::MAX }
        }
    }

    /// Nanoseconds from `earlier` to this moment, or zero where this one comes
    /// first.
    pub fn nanos_since(self, earlier: Moment) -> (nanos: u128)
        ensures
            nanos == nanos_between(earlier, self),
    {
        if self.nanos > earlier.nanos {
            (self.nanos as i128 - earlier.nanos as i128) as u128
        } else {
            0
        }
    }

    /// The moment `millis` after this one, held at the largest representable
    /// moment.
    pub fn plus_millis(self, millis: u32) -> (later: Moment)
        ensures
            later == moment_after(self, millis as int),
    {
        let step: i64 = millis as i64 * NANOS_PER_MILLI;
        let nanos: i128 = self.nanos as i128 + step as i128;
        if nanos <= i64::MAX as i128 {
            Moment { nanos: nanos as i64 }
        } else {
            Moment { nanos: i64::MAX }
        }
    }
}

} // verus!
