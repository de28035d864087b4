//! Calls into chrono for reading a wall-clock time and for the current time.
//! Times are carried as whole seconds: a local wall-clock time as the seconds
//! it would be since 1970-01-01 00:00 if it were UTC, an instant as seconds
//! since the Unix epoch.

use chrono::TimeZone;
use vstd::prelude::*;

verus! {

/// One day, in seconds: the bound on any time zone's offset from UTC.
pub const DAY_SECONDS: i64 = 86_400;

/// A bound on the seconds that chrono can count from 1970 either way: its
/// dates run from year -262143 to year 262142.
pub const SECONDS_BOUND: i64 = 10_000_000_000_000;

/// What chrono's `NaiveDateTime::parse_from_str` reads from `s` with the
/// format `fmt`, as seconds of a wall clock counted from 1970-01-01 00:00;
/// `None` where `s` does not match.
pub uninterp spec fn naive_seconds_of(s: Seq<char>, fmt: Seq<char>) -> Option<i64>;

/// Relies on chrono's `NaiveDateTime::parse_from_str`, whose result depends on
/// the text and the format alone, and on `NaiveDateTime::and_utc` with
/// `DateTime::timestamp` to count that wall-clock time in seconds, which
/// chrono's range of years keeps under `SECONDS_BOUND`.
#[verifier::external_body]
pub(crate) fn parse_naive_seconds(s: &str, fmt: &str) -> (r: Option<i64>)
    ensures
        r == naive_seconds_of(s@, fmt@),
        r matches Some(n) ==> -SECONDS_BOUND < n < SECONDS_BOUND,
{
    chrono::NaiveDateTime::parse_from_str(s, fmt).ok().map(|t| t.and_utc().timestamp())
}

/// Relies on chrono's `Local::from_local_datetime` with `single`: the instant
/// that a wall-clock time names in the system's time zone, or `None` where
/// the time falls in a gap or an overlap. chrono subtracts an offset that
/// `FixedOffset` keeps under a day, and `DateTime::timestamp` counts the
/// instant in seconds.
#[verifier::external_body]
pub(crate) fn local_to_utc_seconds(naive_secs: i64) -> (r: Option<i64>)
    ensures
        r matches Some(u) ==> naive_secs - DAY_SECONDS < u < naive_secs + DAY_SECONDS,
{
    let naive = chrono::DateTime::from_timestamp(naive_secs, 0)?.naive_utc();
    chrono::Local.from_local_datetime(&naive).single().map(|t| t.timestamp())
}

/// Relies on chrono's `From<SystemTime> for DateTime<Utc>`, which takes a
/// clock before 1970 as well as after, and on `DateTime::timestamp`: the
/// current instant in whole seconds, within chrono's range of years.
#[verifier::external_body]
pub(crate) fn now_seconds() -> (r: i64)
    ensures
        -SECONDS_BOUND < r < SECONDS_BOUND,
{
    chrono::DateTime::<chrono::Utc>::from(std::time::SystemTime::now()).timestamp()
}

} // verus!
