//! The clock, and the calendar text of timestamps, from `chrono`.

use vstd::prelude::*;
use chrono::{DateTime, NaiveDateTime, Utc};

verus! {

/// Lowest and highest millisecond timestamps that `chrono` can represent
/// lie within these bounds (about 262,000 years either side of the epoch).
pub open spec fn clock_bound() -> int {
    9_000_000_000_000_000
}

/// Reads the clock with `chrono::Utc::now().timestamp_millis()`.
///
/// The value depends on the time of the call. The contract claims only that
/// it lies within chrono's representable range of dates.
#[verifier::external_body]
pub(crate) fn utc_now_millis() -> (t: i64)
    ensures
        -clock_bound() <= t <= clock_bound(),
{
    chrono::Utc::now().timestamp_millis()
}

/// Reads the clock with `chrono::Local::now().timestamp_millis()`.
///
/// The value depends on the time of the call (a timestamp counts from the
/// epoch in UTC whatever the zone). The contract claims only that it lies
/// within chrono's representable range of dates.
#[verifier::external_body]
pub(crate) fn local_now_millis() -> (t: i64)
    ensures
        -clock_bound() <= t <= clock_bound(),
{
    chrono::Local::now().timestamp_millis()
}

/// The UTC calendar text `%Y-%m-%d %H:%M:%S` of a millisecond timestamp, or
/// `None` when chrono cannot represent the timestamp.
pub uninterp spec fn utc_time_text(millis: int) -> Option<Seq<char>>;

/// Formats a millisecond timestamp as chrono does:
/// `NaiveDateTime::from_timestamp_millis(millis)`, then
/// `DateTime::<Utc>::from_utc(.., Utc).format("%Y-%m-%d %H:%M:%S")`.
///
/// The text depends on the timestamp alone (UTC, no locale); the contract
/// names it. `None` exactly when `from_timestamp_millis` finds the timestamp
/// out of range (more than about 262,000 years from the epoch).
#[verifier::external_body]
#[allow(deprecated)]
pub(crate) fn format_utc_millis(millis: i64) -> (r: Option<String>)
    ensures
        match r {
            Some(s) => utc_time_text(millis as int) == Some(s@),
            None => utc_time_text(millis as int) is None,
        },
{
    match NaiveDateTime::from_timestamp_millis(millis) {
        Some(naive) => Some(DateTime::<Utc>::from_utc(naive, Utc).format("%Y-%m-%d %H:%M:%S").to_string()),
        None => None,
    }
}

} // verus!
