//! Calendar dates of instants, as the `chrono` crate computes them.

use crate::calendar::{
    day_number, day_of, day_of_year, is_date_of, seconds_in_range, valid_date, MAX_YEAR, MIN_YEAR,
};
use vstd::prelude::*;

verus! {

/// Calls `chrono::DateTime::from_timestamp` and reads `year`, `month` and
/// `day` of the result. Claimed: the three numbers are the proleptic
/// Gregorian date of the day that `secs` falls in.
#[verifier::external_body]
pub(crate) fn civil_from_seconds(secs: i64) -> (date: (i32, u32, u32))
    requires
        seconds_in_range(secs as int),
    ensures
        is_date_of(day_of(secs as int), date.0 as int, date.1 as int, date.2 as int),
        MIN_YEAR <= date.0 <= MAX_YEAR,
{
    let at = chrono::DateTime::from_timestamp(secs, 0).unwrap();
    (chrono::Datelike::year(&at), chrono::Datelike::month(&at), chrono::Datelike::day(&at))
}

/// The first second of `year`-`month`-`day`, where that is a valid date of
/// the years `MIN_YEAR` to `MAX_YEAR`.
pub open spec fn midnight_spec(year: int, month: int, day: int) -> Option<i64> {
    if MIN_YEAR <= year <= MAX_YEAR && valid_date(year, month, day) {
        Some((day_number(year, month, day) * 86_400) as i64)
    } else {
        None
    }
}

/// Calls `chrono::NaiveDate::from_ymd_opt` and returns the first second of
/// that day. Claimed: the call succeeds exactly on the valid dates of the
/// years `MIN_YEAR` to `MAX_YEAR`, and the day is the one the calendar names.
#[verifier::external_body]
pub(crate) fn midnight_of(year: i32, month: u32, day: u32) -> (secs: Option<i64>)
    ensures
        secs == midnight_spec(year as int, month as int, day as int),
{
    match chrono::NaiveDate::from_ymd_opt(year, month, day) {
        Some(date) => Some(date.and_time(chrono::NaiveTime::MIN).and_utc().timestamp()),
        None => None,
    }
}

/// The ISO week, 1 to 53, of day `n`: weeks run from Monday to Sunday and
/// belong to the year that their Thursday lies in.
pub open spec fn iso_week_spec(n: int) -> int {
    let thursday = n - (n + 3) % 7 + 3;
    (day_of_year(thursday) - 1) / 7 + 1
}

/// Calls `chrono::DateTime::from_timestamp`, then `iso_week` and `week` on the
/// result. Claimed: the number is that of the ISO week that the day of `secs`
/// lies in.
#[verifier::external_body]
pub(crate) fn iso_week_of(secs: i64) -> (week: u32)
    requires
        seconds_in_range(secs as int),
    ensures
        week == iso_week_spec(day_of(secs as int)),
{
    chrono::Datelike::iso_week(&chrono::DateTime::from_timestamp(secs, 0).unwrap()).week()
}

/// The largest count of milliseconds that an instant is moved by.
pub const SHIFT_LIMIT: i64 = 2_000_000_000_000_000_000;

/// The whole seconds of a count of milliseconds, cut toward zero.
pub open spec fn whole_seconds(ms: int) -> int {
    if ms >= 0 {
        ms / 1000
    } else {
        -((-ms) / 1000)
    }
}

/// The instant `secs`, `nanos`, which is outside a leap second, moved by
/// `ms` milliseconds, where the sum is in the range of instants.
pub open spec fn exact_sum(secs: int, nanos: int, ms: int) -> Option<(int, int)> {
    let fraction = nanos + (ms % 1000) * 1_000_000;
    let sum = secs + ms / 1000 + fraction / 1_000_000_000;
    if seconds_in_range(sum) {
        Some((sum, fraction % 1_000_000_000))
    } else {
        None
    }
}

/// The instant `secs`, `nanos` moved by `ms` milliseconds, where the sum is
/// in the range of instants. A move that stays inside a leap second, or goes
/// back by less than a second from it, keeps the second; a longer move
/// forward first drops the leap second, and a longer move backward first
/// counts it as a second of its own.
pub open spec fn plus_millis(secs: int, nanos: int, ms: int) -> Option<(int, int)> {
    let whole = whole_seconds(ms);
    let part = (ms - whole * 1000) * 1_000_000;
    if nanos < 1_000_000_000 {
        exact_sum(secs, nanos, ms)
    } else if whole > 0 || (part > 0 && nanos + part >= 2_000_000_000) {
        exact_sum(secs, nanos - 1_000_000_000, ms)
    } else if whole < 0 {
        exact_sum(secs + 1, nanos - 1_000_000_000, ms)
    } else {
        Some((secs, nanos + part))
    }
}

/// An instant as two integers.
pub open spec fn widen(instant: Option<(i64, u32)>) -> Option<(int, int)> {
    match instant {
        Some(v) => Some((v.0 as int, v.1 as int)),
        None => None,
    }
}

/// Calls `chrono::NaiveDateTime::checked_add_signed` with
/// `chrono::TimeDelta::try_milliseconds`, on the instant in UTC. Claimed: the
/// sum is the exact one, a leap second counted as `plus_millis` says, and it
/// is refused exactly where its second leaves the range of instants; every
/// sum returned is an instant of the range.
#[verifier::external_body]
pub(crate) fn plus_milliseconds(secs: i64, nanos: u32, ms: i64) -> (sum: Option<(i64, u32)>)
    requires
        seconds_in_range(secs as int),
        nanos < 2_000_000_000,
        -SHIFT_LIMIT <= ms <= SHIFT_LIMIT,
    ensures
        widen(sum) == plus_millis(secs as int, nanos as int, ms as int),
        sum matches Some(v) ==> seconds_in_range(v.0 as int) && v.1 < 2_000_000_000,
{
    let second = chrono::DateTime::from_timestamp(secs, 0).unwrap().naive_utc();
    let at = chrono::Timelike::with_nanosecond(&second, nanos).unwrap();
    match at.checked_add_signed(chrono::TimeDelta::try_milliseconds(ms).unwrap()) {
        Some(sum) => Some((sum.and_utc().timestamp(), sum.and_utc().timestamp_subsec_nanos())),
        None => None,
    }
}

/// Floor of `secs / 86_400`.
pub fn day_index(secs: i64) -> (n: i64)
    ensures
        n == day_of(secs as int),
{
    let q: i64 = secs / 86_400;
    if secs % 86_400 < 0 {
        q - 1
    } else {
        q
    }
}

} // verus!
