//! Moving a value by a count of units.
//!
//! Seconds, minutes, hours, days and weeks are fixed lengths of time. A year
//! is taken as 365 days. Months are stepped one at a time through the month
//! field, and a step that would name a date that does not exist is not taken.
//! A move out of the range of instants leaves the value as it was.

use crate::calendar::{day_of, day_of_month, lemma_date_fields, month_of_day, year_of_day};
use crate::civil::{civil_from_seconds, plus_millis, plus_milliseconds, SHIFT_LIMIT};
use crate::value::{with_date, Dayjs};
use vstd::prelude::*;

verus! {

/// The instant `secs`, `nanos` moved by `ms` milliseconds; the instant
/// itself where the move is too long or leaves the range of instants.
pub open spec fn moved(secs: int, nanos: int, ms: int) -> (int, int) {
    if -SHIFT_LIMIT <= ms <= SHIFT_LIMIT && plus_millis(secs, nanos, ms) is Some {
        plus_millis(secs, nanos, ms)->0
    } else {
        (secs, nanos)
    }
}

/// The instant `secs` with its month moved by `step`, where the date exists.
pub open spec fn month_step(secs: int, step: int) -> int {
    let n = day_of(secs);
    with_date(secs, year_of_day(n), month_of_day(n) + step, day_of_month(n))
}

/// The instant `secs` after `count` steps of the month by `step`.
pub open spec fn months_stepped(secs: int, step: int, count: int) -> int
    decreases count,
{
    if count <= 0 {
        secs
    } else {
        months_stepped(month_step(secs, step), step, count - 1)
    }
}

/// Once a step of the month is not taken, none of the later ones is.
pub proof fn lemma_months_stuck(secs: int, step: int, count: int)
    requires
        month_step(secs, step) == secs,
    ensures
        months_stepped(secs, step, count) == secs,
    decreases count,
{
    if count > 0 {
        lemma_months_stuck(secs, step, count - 1);
    }
}

/// Adding and subtracting lengths of time.
pub trait OperationTime {
    /// The value is one that the operations accept.
    spec fn operable(&self) -> bool;

    /// Adds a count of seconds.
    fn add(&mut self, timestamp: i32)
        requires
            old(self).operable(),
        ensures
            final(self).operable(),
    ;

    /// Adds a count of years of 365 days.
    fn add_years(&mut self, years: i32)
        requires
            old(self).operable(),
        ensures
            final(self).operable(),
    ;

    /// Steps the month forward `months` times.
    fn add_months(&mut self, months: i32)
        requires
            old(self).operable(),
        ensures
            final(self).operable(),
    ;

    /// Adds a count of weeks.
    fn add_weeks(&mut self, weeks: i32)
        requires
            old(self).operable(),
        ensures
            final(self).operable(),
    ;

    /// Adds a count of days.
    fn add_days(&mut self, days: i32)
        requires
            old(self).operable(),
        ensures
            final(self).operable(),
    ;

    /// Adds a count of hours.
    fn add_hours(&mut self, hours: i32)
        requires
            old(self).operable(),
        ensures
            final(self).operable(),
    ;

    /// Adds a count of minutes.
    fn add_minutes(&mut self, minutes: i32)
        requires
            old(self).operable(),
        ensures
            final(self).operable(),
    ;

    /// Adds a count of seconds.
    fn add_seconds(&mut self, seconds: i32)
        requires
            old(self).operable(),
        ensures
            final(self).operable(),
    ;

    /// Adds a count of milliseconds.
    fn add_milliseconds(&mut self, milliseconds: i32)
        requires
            old(self).operable(),
        ensures
            final(self).operable(),
    ;

    /// Subtracts a count of seconds.
    fn subtract(&mut self, timestamp: i32)
        requires
            old(self).operable(),
        ensures
            final(self).operable(),
    ;

    /// Subtracts a count of years of 365 days.
    fn subtract_years(&mut self, years: i32)
        requires
            old(self).operable(),
        ensures
            final(self).operable(),
    ;

    /// Steps the month backward `months` times.
    fn subtract_months(&mut self, months: i32)
        requires
            old(self).operable(),
        ensures
            final(self).operable(),
    ;

    /// Subtracts a count of weeks.
    fn subtract_weeks(&mut self, weeks: i32)
        requires
            old(self).operable(),
        ensures
            final(self).operable(),
    ;

    /// Subtracts a count of days.
    fn subtract_days(&mut self, days: i32)
        requires
            old(self).operable(),
        ensures
            final(self).operable(),
    ;

    /// Subtracts a count of hours.
    fn subtract_hours(&mut self, hours: i32)
        requires
            old(self).operable(),
        ensures
            final(self).operable(),
    ;

    /// Subtracts a count of minutes.
    fn subtract_minutes(&mut self, minutes: i32)
        requires
            old(self).operable(),
        ensures
            final(self).operable(),
    ;

    /// Subtracts a count of seconds.
    fn subtract_seconds(&mut self, seconds: i32)
        requires
            old(self).operable(),
        ensures
            final(self).operable(),
    ;

    /// Subtracts a count of milliseconds.
    fn subtract_milliseconds(&mut self, milliseconds: i32)
        requires
            old(self).operable(),
        ensures
            final(self).operable(),
    ;
}

impl Dayjs {
    /// Moves the value by `count` units of `length` milliseconds each.
    pub fn shift(&mut self, count: i64, length: i64)
        requires
            old(self).wf(),
            -2_147_483_648 <= count <= 2_147_483_648,
            0 < length <= 31_536_000_000,
        ensures
            final(self).wf(),
            (final(self).seconds(), final(self).nanos()) == moved(
                old(self).seconds(),
                old(self).nanos(),
                count * length,
            ),
            final(self).zone() == old(self).zone(),
    {
        assert(-2_147_483_648 * 31_536_000_000 <= count * length <= 2_147_483_648
            * 31_536_000_000) by (nonlinear_arith)
            requires
                -2_147_483_648 <= count <= 2_147_483_648,
                0 < length <= 31_536_000_000,
        ;
        let ms: i128 = count as i128 * length as i128;
        if -(SHIFT_LIMIT as i128) <= ms && ms <= SHIFT_LIMIT as i128 {
            match plus_milliseconds(self.unix(), self.nanosecond(), ms as i64) {
                Some(sum) => {
                    self.set_instant(sum.0, sum.1);
                },
                None => {},
            }
        }
    }

    /// Steps the month `count` times by `step`, which is 1 or -1.
    pub fn step_months(&mut self, step: i32, count: i32)
        requires
            old(self).wf(),
            step == 1 || step == -1,
        ensures
            final(self).wf(),
            final(self).seconds() == months_stepped(
                old(self).seconds(),
                step as int,
                count as int,
            ),
            final(self).nanos() == old(self).nanos(),
            final(self).zone() == old(self).zone(),
    {
        let mut left: i32 = count;
        while left > 0
            invariant
                self.wf(),
                step == 1 || step == -1,
                months_stepped(self.seconds(), step as int, left as int) == months_stepped(
                    old(self).seconds(),
                    step as int,
                    count as int,
                ),
                self.nanos() == old(self).nanos(),
                self.zone() == old(self).zone(),
            decreases left,
        {
            let before = self.unix();
            let date = civil_from_seconds(before);
            proof {
                lemma_date_fields(self.civil_day(), date.0 as int, date.1 as int, date.2 as int);
            }
            let month: u32 = if step == 1 {
                date.1 + 1
            } else {
                date.1 - 1
            };
            self.rebuild(date.0, month, date.2);
            if self.unix() == before {
                proof {
                    lemma_months_stuck(before as int, step as int, left as int);
                    lemma_months_stuck(before as int, step as int, 0);
                }
                left = 0;
            } else {
                left = left - 1;
            }
        }
    }
}

impl OperationTime for Dayjs {
    open spec fn operable(&self) -> bool {
        self.wf()
    }

    fn add(&mut self, timestamp: i32)
        ensures
            (final(self).seconds(), final(self).nanos()) == moved(
                old(self).seconds(),
                old(self).nanos(),
                timestamp * 1000,
            ),
            final(self).zone() == old(self).zone(),
    {
        self.shift(timestamp as i64, 1000);
    }

    fn add_years(&mut self, years: i32)
        ensures
            (final(self).seconds(), final(self).nanos()) == moved(
                old(self).seconds(),
                old(self).nanos(),
                years * 31_536_000_000,
            ),
            final(self).zone() == old(self).zone(),
    {
        self.shift(years as i64, 31_536_000_000);
    }

    fn add_months(&mut self, months: i32)
        ensures
            final(self).seconds() == months_stepped(old(self).seconds(), 1, months as int),
            final(self).nanos() == old(self).nanos(),
            final(self).zone() == old(self).zone(),
    {
        self.step_months(1, months);
    }

    fn add_weeks(&mut self, weeks: i32)
        ensures
            (final(self).seconds(), final(self).nanos()) == moved(
                old(self).seconds(),
                old(self).nanos(),
                weeks * 604_800_000,
            ),
            final(self).zone() == old(self).zone(),
    {
        self.shift(weeks as i64, 604_800_000);
    }

    fn add_days(&mut self, days: i32)
        ensures
            (final(self).seconds(), final(self).nanos()) == moved(
                old(self).seconds(),
                old(self).nanos(),
                days * 86_400_000,
            ),
            final(self).zone() == old(self).zone(),
    {
        self.shift(days as i64, 86_400_000);
    }

    fn add_hours(&mut self, hours: i32)
        ensures
            (final(self).seconds(), final(self).nanos()) == moved(
                old(self).seconds(),
                old(self).nanos(),
                hours * 3_600_000,
            ),
            final(self).zone() == old(self).zone(),
    {
        self.shift(hours as i64, 3_600_000);
    }

    fn add_minutes(&mut self, minutes: i32)
        ensures
            (final(self).seconds(), final(self).nanos()) == moved(
                old(self).seconds(),
                old(self).nanos(),
                minutes * 60_000,
            ),
            final(self).zone() == old(self).zone(),
    {
        self.shift(minutes as i64, 60_000);
    }

    fn add_seconds(&mut self, seconds: i32)
        ensures
            (final(self).seconds(), final(self).nanos()) == moved(
                old(self).seconds(),
                old(self).nanos(),
                seconds * 1000,
            ),
            final(self).zone() == old(self).zone(),
    {
        self.shift(seconds as i64, 1000);
    }

    fn add_milliseconds(&mut self, milliseconds: i32)
        ensures
            (final(self).seconds(), final(self).nanos()) == moved(
                old(self).seconds(),
                old(self).nanos(),
                milliseconds as int,
            ),
            final(self).zone() == old(self).zone(),
    {
        self.shift(milliseconds as i64, 1);
    }

    fn subtract(&mut self, timestamp: i32)
        ensures
            (final(self).seconds(), final(self).nanos()) == moved(
                old(self).seconds(),
                old(self).nanos(),
                -timestamp * 1000,
            ),
            final(self).zone() == old(self).zone(),
    {
        self.shift(-(timestamp as i64), 1000);
    }

    fn subtract_years(&mut self, years: i32)
        ensures
            (final(self).seconds(), final(self).nanos()) == moved(
                old(self).seconds(),
                old(self).nanos(),
                -years * 31_536_000_000,
            ),
            final(self).zone() == old(self).zone(),
    {
        self.shift(-(years as i64), 31_536_000_000);
    }

    fn subtract_months(&mut self, months: i32)
        ensures
            final(self).seconds() == months_stepped(old(self).seconds(), -1, months as int),
            final(self).nanos() == old(self).nanos(),
            final(self).zone() == old(self).zone(),
    {
        self.step_months(-1, months);
    }

    fn subtract_weeks(&mut self, weeks: i32)
        ensures
            (final(self).seconds(), final(self).nanos()) == moved(
                old(self).seconds(),
                old(self).nanos(),
                -weeks * 604_800_000,
            ),
            final(self).zone() == old(self).zone(),
    {
        self.shift(-(weeks as i64), 604_800_000);
    }

    fn subtract_days(&mut self, days: i32)
        ensures
            (final(self).seconds(), final(self).nanos()) == moved(
                old(self).seconds(),
                old(self).nanos(),
                -days * 86_400_000,
            ),
            final(self).zone() == old(self).zone(),
    {
        self.shift(-(days as i64), 86_400_000);
    }

    fn subtract_hours(&mut self, hours: i32)
        ensures
            (final(self).seconds(), final(self).nanos()) == moved(
                old(self).seconds(),
                old(self).nanos(),
                -hours * 3_600_000,
            ),
            final(self).zone() == old(self).zone(),
    {
        self.shift(-(hours as i64), 3_600_000);
    }

    fn subtract_minutes(&mut self, minutes: i32)
        ensures
            (final(self).seconds(), final(self).nanos()) == moved(
                old(self).seconds(),
                old(self).nanos(),
                -minutes * 60_000,
            ),
            final(self).zone() == old(self).zone(),
    {
        self.shift(-(minutes as i64), 60_000);
    }

    fn subtract_seconds(&mut self, seconds: i32)
        ensures
            (final(self).seconds(), final(self).nanos()) == moved(
                old(self).seconds(),
                old(self).nanos(),
                -seconds * 1000,
            ),
            final(self).zone() == old(self).zone(),
    {
        self.shift(-(seconds as i64), 1000);
    }

    fn subtract_milliseconds(&mut self, milliseconds: i32)
        ensures
            (final(self).seconds(), final(self).nanos()) == moved(
                old(self).seconds(),
                old(self).nanos(),
                -milliseconds as int,
            ),
            final(self).zone() == old(self).zone(),
    {
        self.shift(-(milliseconds as i64), 1);
    }
}

} // verus!
