//! Points in time, counted in milliseconds since the Unix epoch.

use vstd::prelude::*;

verus! {

/// Reads the wall clock through `chrono::Utc::now` and converts the instant
/// with `DateTime::timestamp_millis`. The value depends on when the call is
/// made, so nothing is stated about it.
#[verifier::external_body]
pub(crate) fn clock_millis() -> i64 {
    chrono::Utc::now().timestamp_millis()
}

/// An instant in UTC, as milliseconds since 1970-01-01T00:00:00Z.
#[derive(Clone, Copy, Debug, PartialEq, Eq, PartialOrd, Ord, Hash, Structural)]
pub struct Timestamp {
    pub millis: i64,
}

impl Timestamp {
    /// The current instant.
    pub fn now() -> Self {
        Timestamp { millis: clock_millis() }
    }

    pub fn from_millis(millis: i64) -> (r: Self)
        ensures
            r == (Timestamp { millis }),
    {
        Timestamp { millis }
    }

    pub fn timestamp_millis(&self) -> (r: i64)
        ensures
            r == self.millis,
    {
        self.millis
    }

    /// `self` lies strictly before `other`.
    pub open spec fn before(self, other: Timestamp) -> bool {
        self.millis < other.millis
    }

    pub fn is_before(&self, other: &Timestamp) -> (r: bool)
        ensures
            r == self.before(*other),
    {
        self.millis < other.millis
    }

    /// More than `limit_seconds` whole seconds lie between `self` and the later
    /// instant `now`.
    pub open spec fn exceeded(self, now: Timestamp, limit_seconds: u64) -> bool {
        now.millis - self.millis >= (limit_seconds + 1) * 1000
    }

    pub fn has_exceeded(&self, now: &Timestamp, limit_seconds: u64) -> (r: bool)
        ensures
            r == self.exceeded(*now, limit_seconds),
    {
        let elapsed: i128 = now.millis as i128 - self.millis as i128;
        let limit: i128 = (limit_seconds as i128 + 1) * 1000;
        elapsed >= limit
    }
}

/// An optional deadline has passed at `now`: it is set and lies strictly
/// before `now`.
pub open spec fn deadline_passed(deadline: Option<Timestamp>, now: Timestamp) -> bool {
    deadline matches Some(at) && at.before(now)
}

pub fn is_deadline_passed(deadline: &Option<Timestamp>, now: &Timestamp) -> (r: bool)
    ensures
        r == deadline_passed(*deadline, *now),
{
    match deadline {
        Some(at) => at.is_before(now),
        None => false,
    }
}

} // verus!
