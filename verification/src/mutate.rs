//! Replacing one calendar field of a value.
//!
//! A replacement that would name a date or time that does not exist leaves
//! the value as it was.

use crate::calendar::{
    day_number, day_of_month, lemma_date_fields, lemma_date_unique, lemma_month_step,
    lemma_year_step, month_len, month_of_day, second_of_day, year_of_day, MAX_YEAR, MIN_YEAR,
};
use crate::civil::{civil_from_seconds, midnight_of};
use crate::value::{lemma_date_in_range, with_date, Dayjs};
use vstd::prelude::*;

verus! {

/// The instant `secs` with its hour replaced, where `hour` is below 24.
pub open spec fn with_hour(secs: int, hour: int) -> int {
    if 0 <= hour < 24 {
        secs - second_of_day(secs) + hour * 3600 + second_of_day(secs) % 3600
    } else {
        secs
    }
}

/// The instant `secs` with its minute replaced, where `minute` is below 60.
pub open spec fn with_minute(secs: int, minute: int) -> int {
    if 0 <= minute < 60 {
        secs - second_of_day(secs) % 3600 + minute * 60 + second_of_day(secs) % 60
    } else {
        secs
    }
}

/// The instant `secs` with its second replaced, where `second` is below 60.
pub open spec fn with_second(secs: int, second: int) -> int {
    if 0 <= second < 60 {
        secs - second_of_day(secs) % 60 + second
    } else {
        secs
    }
}

/// The nanoseconds `nanos`, replaced by `ms` milliseconds where those are
/// fewer than two thousand.
pub open spec fn with_millisecond(nanos: int, ms: int) -> int {
    if 0 <= ms < 2000 {
        ms * 1_000_000
    } else {
        nanos
    }
}

/// The number of days of month `month` of year `year`, found as the day
/// before the first of the month after it.
pub fn last_day_of_month(year: i32, month: u32) -> (days: u32)
    requires
        MIN_YEAR <= year <= MAX_YEAR,
        1 <= month <= 12,
    ensures
        days == month_len(year as int, month as int),
{
    let next = if month == 12 {
        midnight_of(year + 1, 1, 1)
    } else {
        midnight_of(year, month + 1, 1)
    };
    match next {
        Some(first) => {
            let ghost y = year as int;
            let ghost m = month as int;
            proof {
                lemma_month_step(y, m);
                lemma_year_step(y);
                lemma_date_in_range(y, m, month_len(y, m), 0);
                assert(first as int == (day_number(y, m, month_len(y, m)) + 1) * 86_400);
            }
            let date = civil_from_seconds(first - 86_400);
            proof {
                lemma_date_unique(
                    day_number(y, m, month_len(y, m)),
                    y,
                    m,
                    month_len(y, m),
                    date.0 as int,
                    date.1 as int,
                    date.2 as int,
                );
            }
            date.2
        },
        None => 31,
    }
}

impl Dayjs {
    /// Replaces the year, where the month and day exist in it.
    pub fn set_year(&mut self, year: i32)
        requires
            old(self).wf(),
        ensures
            final(self).wf(),
            final(self).seconds() == with_date(
                old(self).seconds(),
                year as int,
                month_of_day(old(self).civil_day()),
                day_of_month(old(self).civil_day()),
            ),
            final(self).nanos() == old(self).nanos(),
            final(self).zone() == old(self).zone(),
    {
        let secs = self.unix();
        let date = civil_from_seconds(secs);
        proof {
            lemma_date_fields(self.civil_day(), date.0 as int, date.1 as int, date.2 as int);
        }
        self.rebuild(year, date.1, date.2);
    }

    /// Replaces the month, 1 to 12, where the day exists in it.
    pub fn set_month(&mut self, month: u32)
        requires
            old(self).wf(),
        ensures
            final(self).wf(),
            final(self).seconds() == with_date(
                old(self).seconds(),
                year_of_day(old(self).civil_day()),
                month as int,
                day_of_month(old(self).civil_day()),
            ),
            final(self).nanos() == old(self).nanos(),
            final(self).zone() == old(self).zone(),
    {
        let secs = self.unix();
        let date = civil_from_seconds(secs);
        proof {
            lemma_date_fields(self.civil_day(), date.0 as int, date.1 as int, date.2 as int);
        }
        self.rebuild(date.0, month, date.2);
    }

    /// Replaces the day of the month, where the month has such a day.
    pub fn set_date(&mut self, day: u32)
        requires
            old(self).wf(),
        ensures
            final(self).wf(),
            final(self).seconds() == with_date(
                old(self).seconds(),
                year_of_day(old(self).civil_day()),
                month_of_day(old(self).civil_day()),
                day as int,
            ),
            final(self).nanos() == old(self).nanos(),
            final(self).zone() == old(self).zone(),
    {
        let secs = self.unix();
        let date = civil_from_seconds(secs);
        proof {
            lemma_date_fields(self.civil_day(), date.0 as int, date.1 as int, date.2 as int);
        }
        self.rebuild(date.0, date.1, day);
    }

    /// Moves the value to the date `year`-`month`-`day`, keeping the time of
    /// day, where that date exists.
    pub fn rebuild(&mut self, year: i32, month: u32, day: u32)
        requires
            old(self).wf(),
        ensures
            final(self).wf(),
            final(self).seconds() == with_date(
                old(self).seconds(),
                year as int,
                month as int,
                day as int,
            ),
            final(self).nanos() == old(self).nanos(),
            final(self).zone() == old(self).zone(),
    {
        let time = self.second_of_day();
        let nanos = self.nanosecond();
        match midnight_of(year, month, day) {
            Some(midnight) => {
                proof {
                    lemma_date_in_range(year as int, month as int, day as int, time as int);
                }
                self.set_instant(midnight + time as i64, nanos);
            },
            None => {},
        }
    }

    /// Replaces the hour, where it is below 24.
    pub fn set_hour(&mut self, hour: u32)
        requires
            old(self).wf(),
        ensures
            final(self).wf(),
            final(self).seconds() == with_hour(old(self).seconds(), hour as int),
            final(self).nanos() == old(self).nanos(),
            final(self).zone() == old(self).zone(),
    {
        if hour < 24 {
            let secs = self.unix();
            let time = self.second_of_day() as i64;
            let nanos = self.nanosecond();
            proof {
                lemma_same_day(secs as int, hour * 3600 + time % 3600);
            }
            self.set_instant(secs - time + hour as i64 * 3600 + time % 3600, nanos);
        }
    }

    /// Replaces the minute, where it is below 60.
    pub fn set_minute(&mut self, minute: u32)
        requires
            old(self).wf(),
        ensures
            final(self).wf(),
            final(self).seconds() == with_minute(old(self).seconds(), minute as int),
            final(self).nanos() == old(self).nanos(),
            final(self).zone() == old(self).zone(),
    {
        if minute < 60 {
            let secs = self.unix();
            let time = self.second_of_day() as i64;
            let nanos = self.nanosecond();
            proof {
                lemma_same_day(secs as int, time - time % 3600 + minute * 60 + time % 60);
            }
            self.set_instant(secs - time % 3600 + minute as i64 * 60 + time % 60, nanos);
        }
    }

    /// Replaces the second, where it is below 60.
    pub fn set_second(&mut self, second: u32)
        requires
            old(self).wf(),
        ensures
            final(self).wf(),
            final(self).seconds() == with_second(old(self).seconds(), second as int),
            final(self).nanos() == old(self).nanos(),
            final(self).zone() == old(self).zone(),
    {
        if second < 60 {
            let secs = self.unix();
            let time = self.second_of_day() as i64;
            let nanos = self.nanosecond();
            proof {
                lemma_same_day(secs as int, time - time % 60 + second);
            }
            self.set_instant(secs - time % 60 + second as i64, nanos);
        }
    }

    /// Replaces the milliseconds and clears what is finer, where they are
    /// fewer than two thousand; a thousand or more stands for a leap second.
    pub fn set_millisecond(&mut self, ms: u32)
        requires
            old(self).wf(),
        ensures
            final(self).wf(),
            final(self).seconds() == old(self).seconds(),
            final(self).nanos() == with_millisecond(old(self).nanos(), ms as int),
            final(self).zone() == old(self).zone(),
    {
        if ms < 2000 {
            let secs = self.unix();
            self.set_instant(secs, ms * 1_000_000);
        }
    }

    /// The number of days of the value's month.
    pub fn days_in_month(&self) -> (days: u32)
        requires
            self.wf(),
        ensures
            days == month_len(year_of_day(self.civil_day()), month_of_day(self.civil_day())),
    {
        let date = civil_from_seconds(self.unix());
        proof {
            lemma_date_fields(self.civil_day(), date.0 as int, date.1 as int, date.2 as int);
        }
        last_day_of_month(date.0, date.1)
    }
}

/// Another time of the same day is in range where one is.
pub proof fn lemma_same_day(secs: int, time: int)
    requires
        crate::calendar::seconds_in_range(secs),
        0 <= time < 86_400,
    ensures
        crate::calendar::seconds_in_range(secs - second_of_day(secs) + time),
        crate::calendar::day_of(secs - second_of_day(secs) + time) == crate::calendar::day_of(secs),
        second_of_day(secs - second_of_day(secs) + time) == time,
{
}

} // verus!
