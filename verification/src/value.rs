//! The value type: an instant in UTC and a zone hint.

use crate::calendar::{
    day_number, day_of, day_of_month, day_of_year, is_leap, lemma_date_fields, lemma_day_in_year,
    lemma_range_bounds, lemma_year_start_monotonic, month_len, month_of_day, second_of_day,
    seconds_in_range, valid_date, weekday_of_day, year_of_day, MAX_YEAR, MIN_YEAR,
};
use crate::civil::{civil_from_seconds, day_index, iso_week_of, iso_week_spec, midnight_of};
use crate::clock::utc_now;
use crate::zone::{local_hint, TimeZone, ZoneView};
use vstd::prelude::*;

verus! {

/// One point in time, kept in UTC, with a hint of the zone to show it in.
///
/// The instant is a count of seconds since 1970-01-01T00:00:00Z, leap seconds
/// not counted, and a count of nanoseconds since that second began. A count of
/// a thousand million nanoseconds or more stands for a leap second.
#[derive(Clone, Debug, PartialEq)]
pub struct Dayjs {
    pub(crate) tz: TimeZone,
    pub(crate) secs: i64,
    pub(crate) nanos: u32,
}

/// A day of the week.
#[derive(Clone, Copy, Debug, PartialEq, Eq, Structural)]
pub enum Weekday {
    Mon,
    Tue,
    Wed,
    Thu,
    Fri,
    Sat,
    Sun,
}

impl Weekday {
    /// Days since the last Sunday, 0 to 6.
    pub open spec fn index(self) -> int {
        match self {
            Weekday::Sun => 0,
            Weekday::Mon => 1,
            Weekday::Tue => 2,
            Weekday::Wed => 3,
            Weekday::Thu => 4,
            Weekday::Fri => 5,
            Weekday::Sat => 6,
        }
    }

    /// Days since the last Sunday, 0 to 6.
    pub fn num_days_from_sunday(&self) -> (n: u32)
        ensures
            n == self.index(),
    {
        match self {
            Weekday::Sun => 0,
            Weekday::Mon => 1,
            Weekday::Tue => 2,
            Weekday::Wed => 3,
            Weekday::Thu => 4,
            Weekday::Fri => 5,
            Weekday::Sat => 6,
        }
    }

    /// Days since the last Monday, 0 to 6.
    pub fn num_days_from_monday(&self) -> (n: u32)
        ensures
            n == (self.index() + 6) % 7,
    {
        match self {
            Weekday::Mon => 0,
            Weekday::Tue => 1,
            Weekday::Wed => 2,
            Weekday::Thu => 3,
            Weekday::Fri => 4,
            Weekday::Sat => 5,
            Weekday::Sun => 6,
        }
    }
}

/// The instant `secs` with its date replaced by `y`-`m`-`d` and its time of
/// day kept, where that date exists in the years of the range; else `secs`.
pub open spec fn with_date(secs: int, y: int, m: int, d: int) -> int {
    if MIN_YEAR <= y <= MAX_YEAR && valid_date(y, m, d) {
        day_number(y, m, d) * 86_400 + second_of_day(secs)
    } else {
        secs
    }
}

/// Every second of every valid date of the years of the range is in range.
pub proof fn lemma_date_in_range(y: int, m: int, d: int, s: int)
    requires
        MIN_YEAR <= y <= MAX_YEAR,
        valid_date(y, m, d),
        0 <= s < 86_400,
    ensures
        seconds_in_range(day_number(y, m, d) * 86_400 + s),
        day_of(day_number(y, m, d) * 86_400 + s) == day_number(y, m, d),
        second_of_day(day_number(y, m, d) * 86_400 + s) == s,
{
    lemma_day_in_year(y, m, d);
    lemma_year_start_monotonic(MIN_YEAR as int, y);
    lemma_year_start_monotonic(y + 1, MAX_YEAR + 1);
    lemma_range_bounds();
}

/// Whether year `year` has a February 29.
pub fn leap_year(year: i32) -> (leap: bool)
    ensures
        leap == is_leap(year as int),
{
    let shifted: i64 = year as i64 + 4_000_000_000;
    assert(shifted % 4 == (year as int) % 4);
    assert(shifted % 100 == (year as int) % 100);
    assert(shifted % 400 == (year as int) % 400);
    shifted % 4 == 0 && (shifted % 100 != 0 || shifted % 400 == 0)
}

impl Dayjs {
    /// Seconds since 1970-01-01T00:00:00Z.
    pub closed spec fn seconds(&self) -> int {
        self.secs as int
    }

    /// Nanoseconds since the second began.
    pub closed spec fn nanos(&self) -> int {
        self.nanos as int
    }

    /// The zone hint.
    pub closed spec fn zone(&self) -> ZoneView {
        self.tz@
    }

    /// The instant is one that the calendar can name.
    pub open spec fn wf(&self) -> bool {
        seconds_in_range(self.seconds()) && 0 <= self.nanos() < 2_000_000_000
    }

    /// The day that the instant falls in.
    pub open spec fn civil_day(&self) -> int {
        day_of(self.seconds())
    }

    /// Two values are the same instant.
    pub open spec fn same_instant(&self, other: &Dayjs) -> bool {
        self.seconds() == other.seconds() && self.nanos() == other.nanos()
    }

    /// This instant is earlier than the other.
    pub open spec fn earlier(&self, other: &Dayjs) -> bool {
        self.seconds() < other.seconds() || (self.seconds() == other.seconds() && self.nanos()
            < other.nanos())
    }

    /// A value from its parts.
    pub fn at(tz: TimeZone, secs: i64, nanos: u32) -> (value: Dayjs)
        requires
            seconds_in_range(secs as int),
            nanos < 2_000_000_000,
        ensures
            value.wf(),
            value.seconds() == secs,
            value.nanos() == nanos,
            value.zone() == tz@,
    {
        Dayjs { tz, secs, nanos }
    }

    /// The present instant, with the machine's present offset as the hint.
    pub fn current() -> (value: Dayjs)
        ensures
            value.wf(),
            local_hint(value.zone()),
    {
        let now = utc_now();
        Dayjs { tz: TimeZone::current(), secs: now.0, nanos: now.1 }
    }

    /// Replaces the instant and keeps the hint.
    pub(crate) fn set_instant(&mut self, secs: i64, nanos: u32)
        requires
            seconds_in_range(secs as int),
            nanos < 2_000_000_000,
        ensures
            final(self).wf(),
            final(self).seconds() == secs,
            final(self).nanos() == nanos,
            final(self).zone() == old(self).zone(),
    {
        self.secs = secs;
        self.nanos = nanos;
    }

    /// Replaces the zone hint; the instant stays.
    pub fn set_timezone(&mut self, tz: TimeZone)
        ensures
            final(self).zone() == tz@,
            final(self).seconds() == old(self).seconds(),
            final(self).nanos() == old(self).nanos(),
    {
        self.tz = tz;
    }

    /// The zone hint.
    pub fn get_timezone(&self) -> (tz: &TimeZone)
        ensures
            tz@ == self.zone(),
    {
        &self.tz
    }

    /// Seconds since 1970-01-01T00:00:00Z.
    pub fn get_timestamp(&self) -> (secs: i64)
        ensures
            secs == self.seconds(),
    {
        self.secs
    }

    /// Seconds since 1970-01-01T00:00:00Z.
    pub fn timestamp(&self) -> (secs: i64)
        ensures
            secs == self.seconds(),
    {
        self.secs
    }

    /// Seconds since 1970-01-01T00:00:00Z.
    pub fn unix(&self) -> (secs: i64)
        ensures
            secs == self.seconds(),
    {
        self.secs
    }

    /// Nanoseconds since the second began.
    pub fn nanosecond(&self) -> (nanos: u32)
        ensures
            nanos == self.nanos(),
    {
        self.nanos
    }

    /// Milliseconds since 1970-01-01T00:00:00Z.
    pub fn value_of(&self) -> (millis: i64)
        requires
            self.wf(),
        ensures
            millis == self.seconds() * 1000 + self.nanos() / 1_000_000,
    {
        self.secs * 1000 + (self.nanos / 1_000_000) as i64
    }

    /// Milliseconds since the second began; a thousand or more in a leap second.
    pub fn millisecond(&self) -> (ms: u32)
        ensures
            ms == self.nanos() / 1_000_000,
    {
        self.nanos / 1_000_000
    }

    /// Seconds since midnight.
    pub fn second_of_day(&self) -> (s: u32)
        ensures
            s == second_of_day(self.seconds()),
    {
        let r: i64 = self.secs % 86_400;
        if r < 0 {
            (r + 86_400) as u32
        } else {
            r as u32
        }
    }

    /// The second of the minute, 0 to 59.
    pub fn second(&self) -> (s: u32)
        ensures
            s == second_of_day(self.seconds()) % 60,
    {
        self.second_of_day() % 60
    }

    /// The minute of the hour, 0 to 59.
    pub fn minute(&self) -> (m: u32)
        ensures
            m == second_of_day(self.seconds()) / 60 % 60,
    {
        self.second_of_day() / 60 % 60
    }

    /// The hour of the day, 0 to 23.
    pub fn hour(&self) -> (h: u32)
        ensures
            h == second_of_day(self.seconds()) / 3600,
    {
        self.second_of_day() / 3600
    }

    /// The year.
    pub fn year(&self) -> (y: i32)
        requires
            self.wf(),
        ensures
            y == year_of_day(self.civil_day()),
            MIN_YEAR <= y <= MAX_YEAR,
    {
        let date = civil_from_seconds(self.secs);
        proof {
            lemma_date_fields(self.civil_day(), date.0 as int, date.1 as int, date.2 as int);
        }
        date.0
    }

    /// The month, 1 to 12.
    pub fn month_of_year(&self) -> (m: u32)
        requires
            self.wf(),
        ensures
            m == month_of_day(self.civil_day()),
            1 <= m <= 12,
    {
        let date = civil_from_seconds(self.secs);
        proof {
            lemma_date_fields(self.civil_day(), date.0 as int, date.1 as int, date.2 as int);
        }
        date.1
    }

    /// The month, 0 to 11.
    pub fn month(&self) -> (m: u32)
        requires
            self.wf(),
        ensures
            m == month_of_day(self.civil_day()) - 1,
            m <= 11,
    {
        self.month_of_year() - 1
    }

    /// The day of the month, 1 to 31.
    pub fn date(&self) -> (d: u32)
        requires
            self.wf(),
        ensures
            d == day_of_month(self.civil_day()),
            1 <= d <= month_len(year_of_day(self.civil_day()), month_of_day(self.civil_day())),
    {
        let date = civil_from_seconds(self.secs);
        proof {
            lemma_date_fields(self.civil_day(), date.0 as int, date.1 as int, date.2 as int);
        }
        date.2
    }

    /// The day of the week.
    pub fn day(&self) -> (w: Weekday)
        requires
            self.wf(),
        ensures
            w.index() == weekday_of_day(self.civil_day()),
    {
        let n = day_index(self.secs);
        let r: i64 = (n + 4) % 7;
        let k: i64 = if r < 0 {
            r + 7
        } else {
            r
        };
        if k == 0 {
            Weekday::Sun
        } else if k == 1 {
            Weekday::Mon
        } else if k == 2 {
            Weekday::Tue
        } else if k == 3 {
            Weekday::Wed
        } else if k == 4 {
            Weekday::Thu
        } else if k == 5 {
            Weekday::Fri
        } else {
            Weekday::Sat
        }
    }

    /// The day of the year, 1 to 366.
    pub fn day_of_year(&self) -> (d: u32)
        requires
            self.wf(),
        ensures
            d == day_of_year(self.civil_day()),
            1 <= d <= 366,
    {
        let date = civil_from_seconds(self.secs);
        proof {
            lemma_date_fields(self.civil_day(), date.0 as int, date.1 as int, date.2 as int);
        }
        let first = midnight_of(date.0, 1, 1);
        proof {
            lemma_day_in_year(date.0 as int, date.1 as int, date.2 as int);
            lemma_date_in_range(date.0 as int, 1, 1, 0);
        }
        match first {
            Some(start) => (day_index(self.secs) - day_index(start) + 1) as u32,
            None => 1,
        }
    }

    /// The ISO week of the year, 1 to 53.
    pub fn week_of_year(&self) -> (w: u32)
        requires
            self.wf(),
        ensures
            w == iso_week_spec(self.civil_day()),
    {
        iso_week_of(self.secs)
    }

    /// Whether every reading of the value makes sense: it always does.
    pub fn is_valid(&self) -> (valid: bool)
        ensures
            valid,
    {
        true
    }

    /// A copy of the value.
    pub fn clone_dayjs(&self) -> (copy: Dayjs)
        ensures
            copy.seconds() == self.seconds(),
            copy.nanos() == self.nanos(),
            copy.zone() == self.zone(),
    {
        Dayjs { tz: self.tz.duplicate(), secs: self.secs, nanos: self.nanos }
    }

    /// Whether the year of the value has a February 29.
    pub fn is_leap_year(&self) -> (leap: bool)
        requires
            self.wf(),
        ensures
            leap == is_leap(year_of_day(self.civil_day())),
    {
        leap_year(self.year())
    }
}

} // verus!
