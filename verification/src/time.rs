//! Instants and the calendar arithmetic that the engine needs.

use vstd::prelude::*;

verus! {

pub const NANOS_PER_SECOND: i128 = 1_000_000_000;

pub const SECONDS_PER_HOUR: i128 = 3600;

pub const SECONDS_PER_DAY: i64 = 86_400;

/// An instant in UTC: whole seconds since 1970-01-01T00:00:00Z and the
/// nanoseconds past that second.
#[derive(Clone, Copy, Debug, PartialEq, Eq, Structural)]
pub struct Timestamp {
    pub secs: i64,
    pub nanos: u32,
}

/// `a / b` rounded toward zero, for a positive `b`.
pub open spec fn div_toward_zero(a: int, b: int) -> int {
    if a >= 0 {
        a / b
    } else {
        -((-a) / b)
    }
}

impl Timestamp {
    /// Nanoseconds since the epoch.
    pub open spec fn spec_nanos(self) -> int {
        self.secs as int * 1_000_000_000 + self.nanos as int
    }

    /// Nanoseconds from `self` to `later`; negative when `later` is earlier.
    pub open spec fn spec_nanos_until(self, later: Timestamp) -> int {
        later.spec_nanos() - self.spec_nanos()
    }

    /// Whole seconds from `self` to `later`, rounded toward zero.
    pub open spec fn spec_seconds_until(self, later: Timestamp) -> int {
        div_toward_zero(self.spec_nanos_until(later), 1_000_000_000)
    }

    /// Whole hours from `self` to `later`, rounded toward zero.
    pub open spec fn spec_hours_until(self, later: Timestamp) -> int {
        div_toward_zero(self.spec_seconds_until(later), 3600)
    }

    /// The number of the UTC calendar day that holds this instant, counted
    /// from 1970-01-01.
    pub open spec fn spec_utc_day(self) -> int {
        self.secs as int / 86_400
    }

    pub fn new(secs: i64, nanos: u32) -> (r: Timestamp)
        ensures
            r.secs == secs,
            r.nanos == nanos,
    {
        Timestamp { secs, nanos }
    }

    /// Whole seconds from `self` to `later`, rounded toward zero.
    pub fn seconds_until(&self, later: &Timestamp) -> (r: i128)
        ensures
            r == self.spec_seconds_until(*later),
    {
        let d: i128 = (later.secs as i128 - self.secs as i128) * NANOS_PER_SECOND + (
        later.nanos as i128 - self.nanos as i128);
        toward_zero(d, NANOS_PER_SECOND)
    }

    /// Whole hours from `self` to `later`, rounded toward zero.
    pub fn hours_until(&self, later: &Timestamp) -> (r: i128)
        ensures
            r == self.spec_hours_until(*later),
    {
        let s: i128 = self.seconds_until(later);
        toward_zero(s, SECONDS_PER_HOUR)
    }

    /// The number of the UTC calendar day that holds this instant.
    pub fn utc_day(&self) -> (r: i64)
        ensures
            r == self.spec_utc_day(),
    {
        if self.secs >= 0 {
            self.secs / SECONDS_PER_DAY
        } else {
            let back: i64 = -(self.secs + 1);
            -(back / SECONDS_PER_DAY) - 1
        }
    }
}

fn toward_zero(a: i128, b: i128) -> (r: i128)
    requires
        b > 0,
        a > i128::MIN,
    ensures
        r == div_toward_zero(a as int, b as int),
{
    if a >= 0 {
        a / b
    } else {
        -((-a) / b)
    }
}

} // verus!
