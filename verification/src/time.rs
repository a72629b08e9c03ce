//! Points in time, as the broker reads them.

use vstd::prelude::*;

verus! {

/// A UTC instant with millisecond precision: milliseconds since 1970-01-01T00:00:00Z.
#[derive(Debug, Clone, Copy, PartialEq, Eq, Structural)]
pub struct Timestamp {
    pub millis: i64,
}

/// `chrono::Utc::now` followed by `DateTime::timestamp_millis`: the system
/// clock's reading in milliseconds since the Unix epoch. Nothing is claimed of
/// the value: two readings need not even be ordered. chrono panics if the
/// system clock is set before the epoch.
#[verifier::external_body]
fn clock_millis() -> i64 {
    chrono::Utc::now().timestamp_millis()
}

impl Timestamp {
    /// The instant `millis` milliseconds after the Unix epoch.
    pub fn from_millis(millis: i64) -> (at: Timestamp)
        ensures
            at.millis == millis,
    {
        Timestamp { millis }
    }

    /// The current reading of the system clock.
    pub fn now() -> Timestamp {
        Timestamp { millis: clock_millis() }
    }

    /// Milliseconds from `earlier` to `self`; negative if `self` comes first.
    pub open spec fn millis_since(self, earlier: Timestamp) -> int {
        self.millis - earlier.millis
    }
}

} // verus!
