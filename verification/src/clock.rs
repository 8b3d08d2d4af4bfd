//! The system clock and the random source.

use vstd::prelude::*;
use chrono::Timelike;
use rand::Rng;

verus! {

/// The seconds since 1970 by the system clock, as `chrono::Utc::now()` and its
/// `timestamp()` give them. Nothing is claimed of the number: two calls may
/// differ in any way. chrono refuses to go on where the system clock reads a
/// time before 1970.
#[verifier::external_body]
pub(crate) fn now_timestamp() -> i64 {
    chrono::Utc::now().timestamp()
}

/// The first second that chrono has a date for: the start of January 1 of
/// the year 262144 BCE, in seconds since 1970.
pub const FIRST_SECOND: i64 = -8_334_601_228_800;

/// The last second that chrono has a date for: the end of December 31 of the
/// year 262142 CE, in seconds since 1970.
pub const LAST_SECOND: i64 = 8_210_266_876_799;

/// Whether chrono has a date for a timestamp.
pub open spec fn has_date(timestamp: int) -> bool {
    FIRST_SECOND <= timestamp <= LAST_SECOND
}

/// The hours that have passed since midnight, in UTC, at a timestamp.
pub open spec fn hour_of_day(timestamp: int) -> int {
    (timestamp % 86_400) / 3_600
}

/// The hour of the day at a timestamp, and zero where chrono has no date for
/// it.
pub open spec fn utc_hour(timestamp: int) -> int {
    if has_date(timestamp) {
        hour_of_day(timestamp)
    } else {
        0
    }
}

/// The `hour()` of what `chrono::DateTime::from_timestamp` makes of
/// `timestamp`, in UTC; nothing where that is nothing. chrono counts the
/// days since 1970 as the quotient of the timestamp by the seconds of a day,
/// rounded down, and has a date for each day from January 1 of 262144 BCE to
/// December 31 of 262142 CE, which are the days -96465292 to 95026236. The
/// seconds since midnight are the remainder, and the hour is that remainder
/// in hours.
#[verifier::external_body]
pub(crate) fn chrono_hour_of(timestamp: i64) -> (hour: Option<u32>)
    ensures
        hour == if has_date(timestamp as int) {
            Some(hour_of_day(timestamp as int) as u32)
        } else {
            None
        },
{
    match chrono::DateTime::from_timestamp(timestamp, 0) {
        Some(moment) => Some(moment.hour()),
        None => None,
    }
}

/// The hour of the day of `timestamp` in UTC, and zero where there is no date
/// for it.
pub fn utc_hour_of(timestamp: i64) -> (hour: u32)
    ensures
        hour == utc_hour(timestamp as int),
        hour < 24,
{
    match chrono_hour_of(timestamp) {
        Some(hour) => hour,
        None => 0,
    }
}

/// The date, in UTC, of a timestamp as chrono writes it with year, month and
/// day; nothing where chrono has no date for the timestamp.
pub uninterp spec fn chrono_date(timestamp: int) -> Option<Seq<char>>;

/// The date of a timestamp, and the empty text where chrono has no date for
/// it.
pub open spec fn utc_date(timestamp: int) -> Seq<char> {
    match chrono_date(timestamp) {
        Some(date) => date,
        None => Seq::empty(),
    }
}

/// The date of `timestamp` in UTC, written as year, month and day with
/// hyphens between: what `format("%Y-%m-%d")` gives for what
/// `chrono::DateTime::from_timestamp` makes of the timestamp; nothing where
/// that is nothing. The text depends on the timestamp alone.
#[verifier::external_body]
pub(crate) fn chrono_date_of(timestamp: i64) -> (date: Option<String>)
    ensures
        match date {
            Some(text) => chrono_date(timestamp as int) == Some(text@),
            None => chrono_date(timestamp as int) is None,
        },
{
    match chrono::DateTime::from_timestamp(timestamp, 0) {
        Some(moment) => Some(moment.format("%Y-%m-%d").to_string()),
        None => None,
    }
}

/// The date of `timestamp` in UTC, and the empty text where there is no date
/// for it.
pub fn utc_date_of(timestamp: i64) -> (date: String)
    ensures
        date@ == utc_date(timestamp as int),
{
    match chrono_date_of(timestamp) {
        Some(date) => date,
        None => String::new(),
    }
}

/// A number drawn by `rand::Rng::gen_range` from `rand::thread_rng()` out of
/// `0..bound`. All that is claimed is that it lies below `bound`; the range
/// must not be empty, as `gen_range` panics on an empty one.
#[verifier::external_body]
pub(crate) fn random_below(bound: u64) -> (r: u64)
    requires
        bound > 0,
    ensures
        r < bound,
{
    rand::thread_rng().gen_range(0..bound)
}

} // verus!
