//! Instants and spans of time.

use vstd::prelude::*;

verus! {

/// One second, in nanoseconds.
pub const SECOND: i128 = 1_000_000_000;

/// First instant with a date of its own: the start of the year -9999.
pub const FIRST_INSTANT: i128 = -377_705_116_800_000_000_000;

/// Last instant with a date of its own: the end of the year 9999.
pub const LAST_INSTANT: i128 = 253_402_300_799_999_999_999;

/// An instant, in nanoseconds since the Unix epoch.
#[derive(Clone, Copy, Debug, PartialEq, Eq, PartialOrd, Ord, Structural)]
pub struct Timestamp {
    pub nanos: i128,
}

impl Timestamp {
    /// The start of 1970 in UTC.
    pub fn unix_epoch() -> (epoch: Timestamp)
        ensures
            epoch.nanos == 0,
    {
        Timestamp { nanos: 0 }
    }

    /// The instant lies in the range of representable dates.
    pub open spec fn in_range(self) -> bool {
        FIRST_INSTANT <= self.nanos <= LAST_INSTANT
    }

    /// The instant `span` nanoseconds later.
    pub fn plus(self, span: i128) -> (later: Timestamp)
        requires
            i128::MIN <= self.nanos + span <= i128::MAX,
        ensures
            later.nanos == self.nanos + span,
    {
        Timestamp { nanos: self.nanos + span }
    }

    /// The earlier of two instants.
    pub fn earlier(self, other: Timestamp) -> (first: Timestamp)
        ensures
            first == if self.nanos <= other.nanos {
                self
            } else {
                other
            },
    {
        if self.nanos <= other.nanos {
            self
        } else {
            other
        }
    }
}

/// A span of time that is not negative, in nanoseconds.
#[derive(Clone, Copy, Debug, PartialEq, Eq, PartialOrd, Ord, Structural)]
pub struct Span {
    pub nanos: u128,
}

impl Span {
    /// No time at all.
    pub fn zero() -> (span: Span)
        ensures
            span.nanos == 0,
    {
        Span { nanos: 0 }
    }

    pub fn from_secs(seconds: u64) -> (span: Span)
        ensures
            span.nanos == seconds * 1_000_000_000,
    {
        Span { nanos: seconds as u128 * 1_000_000_000 }
    }

    pub fn from_millis(millis: u64) -> (span: Span)
        ensures
            span.nanos == millis * 1_000_000,
    {
        Span { nanos: millis as u128 * 1_000_000 }
    }
}

} // verus!
