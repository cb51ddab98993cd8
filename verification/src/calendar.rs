//! The proleptic Gregorian calendar as a mathematical model.
//!
//! Days are counted from 1970-01-01, which is day 0; seconds are counted
//! from the midnight that starts that day, without leap seconds.

use vstd::prelude::*;

verus! {

/// The earliest year that an instant can fall in.
pub const MIN_YEAR: i32 = -262_143;

/// The latest year that an instant can fall in.
pub const MAX_YEAR: i32 = 262_142;

/// The first second of `MIN_YEAR`.
pub const MIN_SECONDS: i64 = -8_334_601_228_800;

/// The last second of `MAX_YEAR`.
pub const MAX_SECONDS: i64 = 8_210_266_876_799;

/// Gregorian rule: every fourth year, but of the centuries only every fourth.
pub open spec fn is_leap(y: int) -> bool {
    y % 4 == 0 && (y % 100 != 0 || y % 400 == 0)
}

/// Number of days of month `m` (1 to 12) in year `y`.
pub open spec fn month_len(y: int, m: int) -> int {
    if m == 2 {
        if is_leap(y) {
            29
        } else {
            28
        }
    } else if m == 4 || m == 6 || m == 9 || m == 11 {
        30
    } else {
        31
    }
}

/// Number of days in year `y`.
pub open spec fn year_len(y: int) -> int {
    if is_leap(y) {
        366
    } else {
        365
    }
}

/// `y`-`m`-`d` names a day of the calendar.
pub open spec fn valid_date(y: int, m: int, d: int) -> bool {
    1 <= m <= 12 && 1 <= d <= month_len(y, m)
}

/// Day number of January 1 of year `y`.
pub open spec fn year_start(y: int) -> int {
    365 * (y - 1970) + (y - 1) / 4 - (y - 1) / 100 + (y - 1) / 400 - 477
}

/// Days of year `y` that lie before the first of month `m`.
pub open spec fn days_before_month(y: int, m: int) -> int {
    let common: int = if m <= 1 {
        0
    } else if m == 2 {
        31
    } else if m == 3 {
        59
    } else if m == 4 {
        90
    } else if m == 5 {
        120
    } else if m == 6 {
        151
    } else if m == 7 {
        181
    } else if m == 8 {
        212
    } else if m == 9 {
        243
    } else if m == 10 {
        273
    } else if m == 11 {
        304
    } else {
        334
    };
    if m > 2 && is_leap(y) {
        common + 1
    } else {
        common
    }
}

/// Day number of `y`-`m`-`d`.
pub open spec fn day_number(y: int, m: int, d: int) -> int {
    year_start(y) + days_before_month(y, m) + d - 1
}

/// The day that second `secs` falls in.
pub open spec fn day_of(secs: int) -> int {
    secs / 86_400
}

/// Seconds since midnight at second `secs`.
pub open spec fn second_of_day(secs: int) -> int {
    secs % 86_400
}

/// `secs` lies between the first second of `MIN_YEAR` and the last of `MAX_YEAR`.
pub open spec fn seconds_in_range(secs: int) -> bool {
    MIN_SECONDS <= secs <= MAX_SECONDS
}

/// `y`-`m`-`d` is the date of day `n`.
pub open spec fn is_date_of(n: int, y: int, m: int, d: int) -> bool {
    valid_date(y, m, d) && day_number(y, m, d) == n
}

/// A year starts where the year before it ends.
pub proof fn lemma_year_step(y: int)
    ensures
        year_start(y + 1) == year_start(y) + year_len(y),
{
}

/// A month starts where the month before it ends, and the year ends with December.
pub proof fn lemma_month_step(y: int, m: int)
    requires
        1 <= m <= 12,
    ensures
        days_before_month(y, m) + month_len(y, m) == if m == 12 {
            year_len(y)
        } else {
            days_before_month(y, m + 1)
        },
{
}

/// Later years start later.
pub proof fn lemma_year_start_monotonic(a: int, b: int)
    requires
        a <= b,
    ensures
        year_start(a) <= year_start(b),
        year_start(b) - year_start(a) >= 365 * (b - a),
    decreases b - a,
{
    if a < b {
        lemma_year_start_monotonic(a, b - 1);
        lemma_year_step(b - 1);
    }
}

/// Every valid date lies inside its year.
pub proof fn lemma_day_in_year(y: int, m: int, d: int)
    requires
        valid_date(y, m, d),
    ensures
        year_start(y) <= day_number(y, m, d) < year_start(y + 1),
{
    lemma_year_step(y);
}

/// No day has two dates.
pub proof fn lemma_date_unique(n: int, y1: int, m1: int, d1: int, y2: int, m2: int, d2: int)
    requires
        is_date_of(n, y1, m1, d1),
        is_date_of(n, y2, m2, d2),
    ensures
        y1 == y2,
        m1 == m2,
        d1 == d2,
{
    lemma_day_in_year(y1, m1, d1);
    lemma_day_in_year(y2, m2, d2);
    if y1 < y2 {
        lemma_year_start_monotonic(y1 + 1, y2);
    }
    if y2 < y1 {
        lemma_year_start_monotonic(y2 + 1, y1);
    }
}

/// Day `n` lies in year `y`.
pub open spec fn in_year(n: int, y: int) -> bool {
    year_start(y) <= n < year_start(y + 1)
}

/// Day `n` lies in month `m` of year `y`.
pub open spec fn in_month(n: int, y: int, m: int) -> bool {
    1 <= m <= 12 && 0 <= n - year_start(y) - days_before_month(y, m) < month_len(y, m)
}

/// The year that day `n` lies in.
pub open spec fn year_of_day(n: int) -> int {
    choose|y: int| in_year(n, y)
}

/// The month, 1 to 12, that day `n` lies in.
pub open spec fn month_of_day(n: int) -> int {
    choose|m: int| in_month(n, year_of_day(n), m)
}

/// The day of the month, from 1, of day `n`.
pub open spec fn day_of_month(n: int) -> int {
    n - year_start(year_of_day(n)) - days_before_month(year_of_day(n), month_of_day(n)) + 1
}

/// The day of the year, from 1, of day `n`.
pub open spec fn day_of_year(n: int) -> int {
    n - year_start(year_of_day(n)) + 1
}

/// The day of the week of day `n`, from 0 for Sunday to 6 for Saturday.
pub open spec fn weekday_of_day(n: int) -> int {
    (n + 4) % 7
}

/// The date of a day is what the three field functions give.
pub proof fn lemma_date_fields(n: int, y: int, m: int, d: int)
    requires
        is_date_of(n, y, m, d),
    ensures
        year_of_day(n) == y,
        month_of_day(n) == m,
        day_of_month(n) == d,
        day_of_year(n) == days_before_month(y, m) + d,
{
    lemma_day_in_year(y, m, d);
    assert(in_year(n, y));
    let y2 = year_of_day(n);
    assert(in_year(n, y2));
    if y < y2 {
        lemma_year_start_monotonic(y + 1, y2);
    }
    if y2 < y {
        lemma_year_start_monotonic(y2 + 1, y);
    }
    assert(y2 == y);
    assert(in_month(n, y, m));
    let m2 = month_of_day(n);
    assert(in_month(n, y, m2));
}

/// Every day has a year and a month that it lies in.
pub proof fn lemma_day_has_date(n: int)
    ensures
        in_year(n, year_of_day(n)),
        in_month(n, year_of_day(n), month_of_day(n)),
        is_date_of(n, year_of_day(n), month_of_day(n), day_of_month(n)),
{
    lemma_year_exists(n, 1970);
    let y = year_of_day(n);
    lemma_year_step(y);
    let k = n - year_start(y);
    let m: int = if k < days_before_month(y, 2) {
        1
    } else if k < days_before_month(y, 3) {
        2
    } else if k < days_before_month(y, 4) {
        3
    } else if k < days_before_month(y, 5) {
        4
    } else if k < days_before_month(y, 6) {
        5
    } else if k < days_before_month(y, 7) {
        6
    } else if k < days_before_month(y, 8) {
        7
    } else if k < days_before_month(y, 9) {
        8
    } else if k < days_before_month(y, 10) {
        9
    } else if k < days_before_month(y, 11) {
        10
    } else if k < days_before_month(y, 12) {
        11
    } else {
        12
    };
    assert(in_month(n, y, m));
}

/// Some year holds day `n`; the search starts at year `from`.
pub proof fn lemma_year_exists(n: int, from: int)
    ensures
        exists|y: int| in_year(n, y),
    decreases
        if n < year_start(from) {
            year_start(from) - n
        } else {
            n - year_start(from)
        },
{
    lemma_year_step(from);
    lemma_year_step(from - 1);
    if n < year_start(from) {
        if n >= year_start(from - 1) {
            assert(in_year(n, from - 1));
        } else {
            lemma_year_exists(n, from - 1);
        }
    } else if n >= year_start(from + 1) {
        lemma_year_exists(n, from + 1);
    } else {
        assert(in_year(n, from));
    }
}

/// The range of seconds is the range of years.
pub proof fn lemma_range_bounds()
    ensures
        year_start(MIN_YEAR as int) * 86_400 == MIN_SECONDS,
        year_start(MAX_YEAR + 1) * 86_400 - 1 == MAX_SECONDS,
{
}

} // verus!
