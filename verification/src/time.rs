//! Instants on the UTC time line.

use vstd::prelude::*;

verus! {

/// Seconds in one civil day.
pub const SECONDS_PER_DAY: i64 = 86_400;

/// The day number of 1970-01-01, counting 0001-01-01 as day 1.
pub const UNIX_EPOCH_DAY: i64 = 719_163;

/// An instant in UTC: whole seconds since 1970-01-01T00:00:00Z and the
/// nanoseconds past that second.
#[derive(Clone, Copy, Debug, PartialEq, Eq, Structural)]
pub struct Timestamp {
    pub secs: i64,
    pub nanos: u32,
}

impl Timestamp {
    /// Whether `self` is strictly earlier than `other`.
    pub open spec fn precedes(self, other: Timestamp) -> bool {
        self.secs < other.secs || (self.secs == other.secs && self.nanos < other.nanos)
    }

    /// Midnight UTC of the day numbered `days_from_ce`, where 0001-01-01 is day 1.
    pub open spec fn spec_midnight(days_from_ce: int) -> Timestamp {
        Timestamp {
            secs: ((days_from_ce - UNIX_EPOCH_DAY) * SECONDS_PER_DAY) as i64,
            nanos: 0,
        }
    }

    /// Midnight UTC of the day numbered `days_from_ce`, where 0001-01-01 is day 1.
    pub fn midnight(days_from_ce: i32) -> (t: Timestamp)
        ensures
            t == Self::spec_midnight(days_from_ce as int),
            t.secs == (days_from_ce - 719_163) * 86_400,
            t.nanos == 0,
    {
        let days: i64 = days_from_ce as i64;
        Timestamp { secs: (days - UNIX_EPOCH_DAY) * SECONDS_PER_DAY, nanos: 0 }
    }

    /// Whether `self` is no earlier than `other`.
    pub fn is_at_least(&self, other: &Timestamp) -> (r: bool)
        ensures
            r == !self.precedes(*other),
    {
        self.secs > other.secs || (self.secs == other.secs && self.nanos >= other.nanos)
    }
}

} // verus!
