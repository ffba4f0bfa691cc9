//! Instants on the UTC time line, as plain integers.

use vstd::prelude::*;

verus! {

/// Nanoseconds in a second.
pub const NANOS_PER_SECOND: i128 = 1_000_000_000;

/// Nanoseconds in a day.
pub const NANOS_PER_DAY: i128 = 86_400_000_000_000;

/// An instant: whole seconds since the Unix epoch, and the nanoseconds
/// that follow them.
#[derive(Clone, Copy, Debug, PartialEq, Eq, Structural)]
pub struct Timestamp {
    pub secs: i64,
    pub nanos: u32,
}

impl Timestamp {
    /// Nanoseconds since the Unix epoch.
    pub open spec fn total_nanos(self) -> int {
        self.secs * NANOS_PER_SECOND + self.nanos
    }

    /// Nanoseconds from this instant to `now`: positive for an instant in
    /// the past.
    pub open spec fn age(self, now: Timestamp) -> int {
        now.total_nanos() - self.total_nanos()
    }

    /// Whole seconds from this instant to `now`, and 0 for an instant that
    /// is not in the past.
    pub open spec fn seconds_ago(self, now: Timestamp) -> int {
        if self.age(now) <= 0 {
            0
        } else {
            self.age(now) / (NANOS_PER_SECOND as int)
        }
    }

    /// `chrono::Utc::now`, read by `timestamp` and `timestamp_subsec_nanos`.
    /// Trusted; nothing is claimed of the instant that comes back.
    #[verifier::external_body]
    pub(crate) fn now() -> Timestamp {
        let t = chrono::Utc::now();
        Timestamp { secs: t.timestamp(), nanos: t.timestamp_subsec_nanos() }
    }

    pub fn new(secs: i64, nanos: u32) -> (r: Timestamp)
        ensures
            r == (Timestamp { secs, nanos }),
    {
        Timestamp { secs, nanos }
    }

    /// Nanoseconds from this instant to `now`.
    pub fn age_nanos(self, now: Timestamp) -> (r: i128)
        ensures
            r == self.age(now),
    {
        let a: i128 = now.secs as i128 * NANOS_PER_SECOND + now.nanos as i128;
        let b: i128 = self.secs as i128 * NANOS_PER_SECOND + self.nanos as i128;
        a - b
    }

    /// Whole seconds from this instant to `now`, and 0 for an instant that
    /// is not in the past.
    pub fn elapsed_seconds(self, now: Timestamp) -> (r: i128)
        ensures
            r == self.seconds_ago(now),
            r >= 0,
    {
        let d: i128 = self.age_nanos(now);
        if d <= 0 {
            0
        } else {
            d / NANOS_PER_SECOND
        }
    }
}

} // verus!
