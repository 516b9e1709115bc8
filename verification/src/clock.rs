//! Points in time.

use vstd::prelude::*;

verus! {

/// Seconds in a day.
pub const SECONDS_PER_DAY: i64 = 86_400;

/// A point in time in UTC: whole seconds since the Unix epoch, and nanoseconds beyond them.
#[derive(Debug, Clone, Copy, PartialEq, Eq, Structural)]
pub struct Timestamp {
    pub secs: i64,
    pub nanos: u32,
}

impl Timestamp {
    /// The nanoseconds stay below a whole second.
    pub open spec fn wf(self) -> bool {
        self.nanos < 1_000_000_000
    }

    /// Nanoseconds since the Unix epoch.
    pub open spec fn instant(self) -> int {
        self.secs * 1_000_000_000 + self.nanos
    }

    /// True when this point lies after the other one.
    pub fn is_after(&self, other: &Timestamp) -> (r: bool)
        requires
            self.wf(),
            other.wf(),
        ensures
            r == (self.instant() > other.instant()),
    {
        self.secs > other.secs || (self.secs == other.secs && self.nanos > other.nanos)
    }

    /// The point the given number of days later.
    pub fn plus_days(&self, days: u32) -> (r: Timestamp)
        requires
            self.secs + days * SECONDS_PER_DAY <= i64::MAX,
        ensures
            r.secs == self.secs + days * SECONDS_PER_DAY,
            r.nanos == self.nanos,
            self.wf() ==> r.wf(),
    {
        assert(days * SECONDS_PER_DAY <= 0xffff_ffff * 86_400);
        Timestamp { secs: self.secs + (days as i64) * SECONDS_PER_DAY, nanos: self.nanos }
    }
}

/// True for what the clock can show: a point between the Unix epoch and the last second that
/// `chrono` represents.
pub open spec fn is_reading(t: Timestamp) -> bool {
    t.wf() && 0 <= t.secs <= 8_210_266_876_799
}

/// Calls `chrono::Utc::now`. The contract says only that the reading lies between the Unix epoch
/// and the last second that `chrono` represents; what the clock shows is left open. `chrono`
/// panics where the system clock is set outside of that span.
#[verifier::external_body]
pub(crate) fn now() -> (r: Timestamp)
    ensures
        is_reading(r),
{
    let t = chrono::Utc::now();
    Timestamp { secs: t.timestamp(), nanos: t.timestamp_subsec_nanos() }
}

} // verus!
