//! Making values: from the clock, from text, from numbers and from fields.
//!
//! Every value made here carries the machine's present offset as its zone
//! hint, unless a hint is given. A construction that cannot name an instant
//! fails with a message that holds the input.

use crate::calendar::{day_number, seconds_in_range, valid_date, MAX_YEAR, MIN_YEAR};
use crate::civil::{midnight_of, widen};
use crate::clock::utc_now;
use crate::digits::{decimal, decimal_text};
use crate::display::spells_instant;
use crate::parse::{only_date_fits, parse_date_time, parsed};
use crate::text::{can_read_safely, instant_ok, plain_instant, read_plain, reads_safely};
use crate::value::{lemma_date_in_range, Dayjs};
use crate::zone::{local_hint, TimeZone};
use vstd::prelude::*;
use vstd::string::StringExecFns;

verus! {

/// The result is the value at the expected instant, hinted with the
/// machine's offset, or the error with the expected message.
pub open spec fn yields(
    made: Result<Dayjs, String>,
    expected: Result<(int, int), Seq<char>>,
) -> bool {
    match expected {
        Ok(v) => made matches Ok(d) && d.wf() && d.seconds() == v.0 && d.nanos() == v.1
            && local_hint(d.zone()),
        Err(e) => made matches Err(m) && m@ == e,
    }
}

/// The number of decimal digits of `n`, its sign left aside, where that is
/// ten or thirteen.
pub open spec fn epoch_digits(n: int) -> int {
    let a = if n < 0 {
        -n
    } else {
        n
    };
    if 1_000_000_000 <= a <= 9_999_999_999 {
        10
    } else if 1_000_000_000_000 <= a <= 9_999_999_999_999 {
        13
    } else {
        0
    }
}

/// The instant that the number `n` stands for: seconds where it has ten
/// digits, milliseconds where it has thirteen.
pub open spec fn epoch_instant(n: int) -> Result<(int, int), Seq<char>> {
    if epoch_digits(n) == 10 {
        Ok((n, 0))
    } else if epoch_digits(n) == 13 {
        Ok((n / 1000, (n % 1000) * 1_000_000))
    } else {
        Err(decimal(n) + " is not a safe time number"@)
    }
}

/// The message for a date that does not exist.
pub open spec fn invalid_date(year: int, month: int, day: int) -> Seq<char> {
    "Invalid date: "@ + decimal(year) + "-"@ + decimal(month) + "-"@ + decimal(day)
}

/// The fields name a date of the years of the range.
pub open spec fn date_ok(year: int, month: int, day: int) -> bool {
    MIN_YEAR <= year <= MAX_YEAR && valid_date(year, month, day)
}

/// The fields name a time of day; a thousand milliseconds or more are a leap
/// second, which only second 59 can hold.
pub open spec fn time_ok(hour: int, minute: int, second: int, ms: int) -> bool {
    0 <= hour < 24 && 0 <= minute < 60 && 0 <= second < 60 && 0 <= ms < 2000 && (ms >= 1000
        ==> second == 59)
}

/// The instant that the fields name.
pub open spec fn fields_instant(
    year: int,
    month: int,
    day: int,
    hour: int,
    minute: int,
    second: int,
    ms: int,
) -> Result<(int, int), Seq<char>> {
    if !date_ok(year, month, day) {
        Err(invalid_date(year, month, day))
    } else if !time_ok(hour, minute, second, ms) {
        Err("Invalid time"@)
    } else {
        Ok(
            (
                day_number(year, month, day) * 86_400 + hour * 3600 + minute * 60 + second,
                ms * 1_000_000,
            ),
        )
    }
}

/// Element `i` of the fields, or `default` where the fields end before it.
pub open spec fn field_or(fields: Seq<i32>, i: int, default: int) -> int {
    if i < fields.len() {
        fields[i] as int
    } else {
        default
    }
}

/// The instant that an array of year, month from 0, day, hour, minute, second
/// and millisecond names; what is missing at the end is the first day and
/// midnight.
pub open spec fn array_instant(fields: Seq<i32>) -> Result<(int, int), Seq<char>> {
    if fields.len() == 0 {
        Err("Array is empty"@)
    } else {
        fields_instant(
            fields[0] as int,
            field_or(fields, 1, 0) + 1,
            field_or(fields, 2, 1),
            field_or(fields, 3, 0),
            field_or(fields, 4, 0),
            field_or(fields, 5, 0),
            field_or(fields, 6, 0),
        )
    }
}

/// The instant that a reading of a text gave, or the message that names the text.
pub open spec fn reading_instant(reading: Option<(int, int)>, s: Seq<char>) -> Result<
    (int, int),
    Seq<char>,
> {
    match reading {
        Some(v) => Ok(v),
        None => Err("Failed to parse date time from string: "@ + s),
    }
}

/// The instant that a reading by a pattern gave, or the message that names
/// the text, the pattern and the reason.
pub open spec fn pattern_instant(
    reading: Result<(int, int), Seq<char>>,
    s: Seq<char>,
    pattern: Seq<char>,
) -> Result<(int, int), Seq<char>> {
    match reading {
        Ok(v) => Ok(v),
        Err(reason) => Err(
            "Failed to parse '"@ + s + "' with format '"@ + pattern + "': "@ + reason,
        ),
    }
}

impl Default for Dayjs {
    /// The present instant, with the machine's present offset as the hint.
    fn default() -> (value: Dayjs)
        ensures
            value.wf(),
            local_hint(value.zone()),
    {
        Dayjs::current()
    }
}

/// Seconds since 1970-01-01T00:00:00Z at present.
pub fn timestamp() -> (secs: i64)
    ensures
        seconds_in_range(secs as int),
{
    utc_now().0
}

/// The present instant, with the machine's present offset as the hint.
pub fn dayjs() -> (value: Dayjs)
    ensures
        value.wf(),
        local_hint(value.zone()),
{
    Dayjs::current()
}

/// The present instant, with the machine's present offset as the hint.
pub fn now() -> (value: Dayjs)
    ensures
        value.wf(),
        local_hint(value.zone()),
{
    Dayjs::current()
}

/// The present instant, with the given hint.
pub fn from_timezone(tz: TimeZone) -> (value: Dayjs)
    ensures
        value.wf(),
        value.zone() == tz@,
{
    let now = utc_now();
    Dayjs::at(tz, now.0, now.1)
}

/// The value at an instant of the range, given as seconds since
/// 1970-01-01T00:00:00Z and nanoseconds.
pub fn from_datetime(secs: i64, nanos: u32) -> (value: Dayjs)
    requires
        seconds_in_range(secs as int),
        nanos < 2_000_000_000,
    ensures
        value.wf(),
        value.seconds() == secs,
        value.nanos() == nanos,
        local_hint(value.zone()),
{
    Dayjs::at(TimeZone::current(), secs, nanos)
}

/// The value at a date and time without a zone, taken as UTC and given as
/// seconds since 1970-01-01T00:00:00 and nanoseconds.
pub fn from_naive(secs: i64, nanos: u32) -> (value: Dayjs)
    requires
        seconds_in_range(secs as int),
        nanos < 2_000_000_000,
    ensures
        value.wf(),
        value.seconds() == secs,
        value.nanos() == nanos,
        local_hint(value.zone()),
{
    Dayjs::at(TimeZone::current(), secs, nanos)
}

/// The value for a reading of the text `s`, or the error that names the text.
pub fn from_reading(reading: Option<(i64, u32)>, s: &str) -> (made: Result<Dayjs, String>)
    requires
        instant_ok(reading),
    ensures
        yields(made, reading_instant(widen(reading), s@)),
{
    match reading {
        Some(v) => Ok(Dayjs::at(TimeZone::current(), v.0, v.1)),
        None => Err(String::from_str("Failed to parse date time from string: ").concat(s)),
    }
}

/// Reads a value from a text in any of the known shapes. A date alone is
/// read as its midnight in UTC, and the text that `to_iso` writes of an
/// instant is read as that instant.
pub fn from_str(s: &str) -> (made: Result<Dayjs, String>)
    ensures
        yields(made, reading_instant(parsed(s@), s@)),
        only_date_fits(s@) ==> (made matches Ok(d) ==> d.seconds() % 86_400 == 0 && d.nanos()
            == 0),
        forall|secs: int, nanos: int| #[trigger]
            spells_instant(s@, secs, nanos) ==> (made matches Ok(d) && d.seconds() == secs
                && d.nanos() == nanos),
{
    from_reading(parse_date_time(s), s)
}

/// The value for a reading of the text `s` by the pattern `pattern`, or the
/// error that names both and the reason.
pub fn from_pattern_reading(reading: Result<(i64, u32), String>, s: &str, pattern: &str) -> (made:
    Result<Dayjs, String>)
    requires
        reading matches Ok(v) ==> seconds_in_range(v.0 as int) && v.1 < 2_000_000_000,
    ensures
        yields(made, pattern_instant(crate::text::widen_reading(reading), s@, pattern@)),
{
    match reading {
        Ok(v) => Ok(Dayjs::at(TimeZone::current(), v.0, v.1)),
        Err(reason) => Err(
            String::from_str("Failed to parse '").concat(s).concat("' with format '").concat(
                pattern,
            ).concat("': ").concat(reason.as_str()),
        ),
    }
}

/// The instant that a text stands for by a pattern. A text with an extreme
/// year is out of range by a pattern that names the year of the ISO week
/// date, whatever else the two hold.
pub open spec fn format_instant(s: Seq<char>, pattern: Seq<char>) -> Result<(int, int), Seq<char>> {
    if reads_safely(s, pattern) {
        pattern_instant(plain_instant(s, pattern), s, pattern)
    } else {
        pattern_instant(Err("input is out of range"@), s, pattern)
    }
}

/// Reads a value from a text by a pattern of date and time without a zone;
/// the reading is taken as UTC.
pub fn from_format(s: &str, format: &str) -> (made: Result<Dayjs, String>)
    ensures
        yields(made, format_instant(s@, format@)),
{
    if can_read_safely(s, format) {
        from_pattern_reading(read_plain(s, format), s, format)
    } else {
        from_pattern_reading(Err(String::from_str("input is out of range")), s, format)
    }
}

/// The value for a count of seconds, where the number has ten digits, or of
/// milliseconds, where it has thirteen.
pub fn from_int64(n: i64) -> (made: Result<Dayjs, String>)
    ensures
        yields(made, epoch_instant(n as int)),
{
    let a: i64 = if n < 0 {
        if n == i64::MIN {
            i64::MAX
        } else {
            -n
        }
    } else {
        n
    };
    if 1_000_000_000 <= a && a <= 9_999_999_999 {
        Ok(Dayjs::at(TimeZone::current(), n, 0))
    } else if 1_000_000_000_000 <= a && a <= 9_999_999_999_999 {
        let r: i64 = n % 1000;
        let (secs, ms): (i64, i64) = if r < 0 {
            (n / 1000 - 1, r + 1000)
        } else {
            (n / 1000, r)
        };
        Ok(Dayjs::at(TimeZone::current(), secs, (ms * 1_000_000) as u32))
    } else {
        Err(decimal_text(n).concat(" is not a safe time number"))
    }
}

/// The message for a date that does not exist.
fn invalid_date_text(year: i64, month: i64, day: i64) -> (t: String)
    ensures
        t@ == invalid_date(year as int, month as int, day as int),
{
    String::from_str("Invalid date: ").concat(decimal_text(year).as_str()).concat("-").concat(
        decimal_text(month).as_str(),
    ).concat("-").concat(decimal_text(day).as_str())
}

/// The value at the fields, each given as any integer.
pub fn from_fields(
    year: i64,
    month: i64,
    day: i64,
    hour: i64,
    minute: i64,
    second: i64,
    ms: i64,
) -> (made: Result<Dayjs, String>)
    ensures
        yields(
            made,
            fields_instant(
                year as int,
                month as int,
                day as int,
                hour as int,
                minute as int,
                second as int,
                ms as int,
            ),
        ),
{
    let date_fits = -262_143 <= year && year <= 262_142 && 1 <= month && month <= 12 && 1 <= day
        && day <= 31;
    let midnight = if date_fits {
        midnight_of(year as i32, month as u32, day as u32)
    } else {
        None
    };
    match midnight {
        Some(start) => {
            let time_fits = 0 <= hour && hour < 24 && 0 <= minute && minute < 60 && 0 <= second
                && second < 60 && 0 <= ms && ms < 2000 && (ms < 1000 || second == 59);
            if time_fits {
                proof {
                    lemma_date_in_range(
                        year as int,
                        month as int,
                        day as int,
                        hour * 3600 + minute * 60 + second,
                    );
                }
                Ok(
                    Dayjs::at(
                        TimeZone::current(),
                        start + hour * 3600 + minute * 60 + second,
                        (ms * 1_000_000) as u32,
                    ),
                )
            } else {
                Err(String::from_str("Invalid time"))
            }
        },
        None => Err(invalid_date_text(year, month, day)),
    }
}

/// The value at midnight UTC of a date.
pub fn from_ymd(year: i32, month: u32, day: u32) -> (made: Result<Dayjs, String>)
    ensures
        yields(made, fields_instant(year as int, month as int, day as int, 0, 0, 0, 0)),
{
    from_fields(year as i64, month as i64, day as i64, 0, 0, 0, 0)
}

/// The value at a date and a time of day, in UTC.
pub fn from_ymdhms(year: i32, month: u32, day: u32, hour: u32, minute: u32, second: u32) -> (made:
    Result<Dayjs, String>)
    ensures
        yields(
            made,
            fields_instant(
                year as int,
                month as int,
                day as int,
                hour as int,
                minute as int,
                second as int,
                0,
            ),
        ),
{
    from_fields(
        year as i64,
        month as i64,
        day as i64,
        hour as i64,
        minute as i64,
        second as i64,
        0,
    )
}

/// Element `i` of the fields, or `default` where the fields end before it.
fn element_or(fields: &[i32], i: usize, default: i64) -> (value: i64)
    ensures
        value == field_or(fields@, i as int, default as int),
{
    if i < fields.len() {
        fields[i] as i64
    } else {
        default
    }
}

/// The value at the fields of an array: year, month from 0, day, hour,
/// minute, second and millisecond. What is missing at the end is the first
/// day and midnight.
pub fn from_array(arr: &[i32]) -> (made: Result<Dayjs, String>)
    ensures
        yields(made, array_instant(arr@)),
{
    if arr.len() == 0 {
        return Err(String::from_str("Array is empty"));
    }
    from_fields(
        arr[0] as i64,
        element_or(arr, 1, 0) + 1,
        element_or(arr, 2, 1),
        element_or(arr, 3, 0),
        element_or(arr, 4, 0),
        element_or(arr, 5, 0),
        element_or(arr, 6, 0),
    )
}

} // verus!
