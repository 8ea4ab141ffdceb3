//! Points in time and lengths of time, held as nanosecond counts.

use vstd::prelude::*;

verus! {

/// Nanoseconds in one second.
pub const NANOS_PER_SECOND: i128 = 1_000_000_000;

/// Nanoseconds in one calendar day.
pub const NANOS_PER_DAY: i128 = 86_400_000_000_000;

/// A naive point in time: nanoseconds since 1970-01-01T00:00:00.
#[derive(Clone, Copy, Debug, PartialEq, Eq, Structural)]
pub struct Timestamp {
    pub nanos: i64,
}

/// A signed length of time in nanoseconds.
#[derive(Clone, Copy, Debug, PartialEq, Eq, Structural)]
pub struct TimeSpan {
    pub nanos: i128,
}

/// The index of the calendar day that holds the instant `nanos`
/// (days counted from 1970-01-01, floor division).
pub open spec fn day_index(nanos: int) -> int {
    nanos / (NANOS_PER_DAY as int)
}

impl Timestamp {
    pub fn from_nanos(nanos: i64) -> (t: Timestamp)
        ensures
            t.nanos == nanos,
    {
        Timestamp { nanos }
    }

    /// The signed time from `earlier` to `self`, in nanoseconds.
    pub open spec fn since_spec(self, earlier: Timestamp) -> int {
        self.nanos - earlier.nanos
    }

    /// The time elapsed from `earlier` to `self`.
    pub fn since(self, earlier: Timestamp) -> (span: TimeSpan)
        ensures
            span.nanos == self.since_spec(earlier),
    {
        TimeSpan { nanos: self.nanos as i128 - earlier.nanos as i128 }
    }

    /// Whether two instants fall on the same calendar day
    /// (the same year, month and day of the proleptic Gregorian calendar).
    pub fn same_day(self, other: Timestamp) -> (r: bool)
        ensures
            r == (day_index(self.nanos as int) == day_index(other.nanos as int)),
    {
        floor_day(self.nanos) == floor_day(other.nanos)
    }
}

/// The largest number of whole seconds a `chrono::TimeDelta` holds.
pub const MAX_DELTA_SECONDS: i64 = 9_223_372_036_854_775;

/// Calls `chrono::TimeDelta::try_days` and hands out the length in whole
/// seconds: chrono's source makes `days * 86400` seconds, and refuses
/// (`None`) a product that overflows or lies outside
/// `-MAX_DELTA_SECONDS ..= MAX_DELTA_SECONDS`.
#[verifier::external_body]
fn chrono_days_in_seconds(days: i64) -> (r: Option<i64>)
    ensures
        r is Some <==> -MAX_DELTA_SECONDS <= days * 86_400 <= MAX_DELTA_SECONDS,
        r matches Some(s) ==> s == days * 86_400,
{
    chrono::TimeDelta::try_days(days).map(|d| d.num_seconds())
}

/// Whether `chrono::TimeDelta::days(days)` is a duration rather than a panic.
pub open spec fn days_in_range(days: int) -> bool {
    -MAX_DELTA_SECONDS <= days * 86_400 <= MAX_DELTA_SECONDS
}

impl TimeSpan {
    /// `days` days, as `chrono::Duration::days` makes them.
    pub fn days(days: i64) -> (span: TimeSpan)
        requires
            days_in_range(days as int),
        ensures
            span.nanos == days * 86_400 * 1_000_000_000,
    {
        let seconds = chrono_days_in_seconds(days).unwrap();
        TimeSpan { nanos: seconds as i128 * NANOS_PER_SECOND }
    }

    /// `days` days where chrono can hold them.
    pub fn try_days(days: i64) -> (span: Option<TimeSpan>)
        ensures
            span is Some <==> days_in_range(days as int),
            span matches Some(s) ==> s.nanos == days * 86_400 * 1_000_000_000,
    {
        match chrono_days_in_seconds(days) {
            Some(seconds) => Some(TimeSpan { nanos: seconds as i128 * NANOS_PER_SECOND }),
            None => None,
        }
    }
}

fn floor_day(nanos: i64) -> (d: i128)
    ensures
        d == day_index(nanos as int),
{
    let n = nanos as i128;
    if n >= 0 {
        n / NANOS_PER_DAY
    } else {
        let m: i128 = -n;
        let q: i128 = m / NANOS_PER_DAY;
        let r: i128 = m % NANOS_PER_DAY;
        assert(m == q * NANOS_PER_DAY + r);
        if r == 0 {
            assert(n == (-q) * NANOS_PER_DAY);
            -q
        } else {
            assert(n == (-q - 1) * NANOS_PER_DAY + (NANOS_PER_DAY - r));
            -q - 1
        }
    }
}

} // verus!
