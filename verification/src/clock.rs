//! Points in time, as entities record them.
use vstd::prelude::*;

verus! {

/// A point in time: whole seconds since 1970-01-01 00:00:00 UTC and the
/// nanoseconds past that second.
#[derive(Clone, Copy, Debug, PartialEq, Eq, Structural, Hash)]
pub struct Timestamp {
    pub seconds: i64,
    pub nanos: u32,
}

/// A time as the clock gives it: not before 1970, and with less than one
/// second's worth of nanoseconds.
///
/// A `Timestamp` written by hand may hold any two numbers. One read from the
/// clock holds such a pair: never the nanoseconds that stand for a leap second.
pub open spec fn is_clock_time(time: Timestamp) -> bool {
    &&& time.seconds >= 0
    &&& time.nanos < 1_000_000_000
}

impl Timestamp {
    /// `self` is `other` or earlier.
    pub open spec fn not_after(self, other: Timestamp) -> bool {
        self.seconds < other.seconds || (self.seconds == other.seconds && self.nanos
            <= other.nanos)
    }

    /// The time on the machine's clock.
    pub fn now() -> (now: Timestamp)
        ensures
            is_clock_time(now),
    {
        utc_now()
    }

    pub fn is_not_after(&self, other: &Timestamp) -> (answer: bool)
        ensures
            answer == self.not_after(*other),
    {
        self.seconds < other.seconds || (self.seconds == other.seconds && self.nanos
            <= other.nanos)
    }
}

/// `chrono::Utc::now`, read by `DateTime::timestamp` and
/// `DateTime::timestamp_subsec_nanos`. The value is the machine's clock.
///
/// Claims of every value that comes back what the outside function's way
/// of making it fixes: it is made from the time that has passed since 1970,
/// so the seconds are not negative, and from that time's fraction of a
/// second, so the nanoseconds are below a thousand million. On a machine
/// whose clock stands before 1970 the outside function panics, and so does
/// this one.
#[verifier::external_body]
fn utc_now() -> (now: Timestamp)
    ensures
        is_clock_time(now),
{
    let now = chrono::Utc::now();
    Timestamp { seconds: now.timestamp(), nanos: now.timestamp_subsec_nanos() }
}

} // verus!
