//! Differences between two values in a unit.
//!
//! In milliseconds to weeks the difference is the elapsed time divided by the
//! fixed length of the unit, cut toward zero. In months and years it is the
//! difference of the calendar fields, the day of the month left aside.

use crate::calendar::{month_of_day, year_of_day};
use crate::unit::Unit;
use crate::value::Dayjs;
use vstd::prelude::*;

verus! {

/// The quotient of `a` by a positive `b`, cut toward zero.
pub open spec fn quotient(a: int, b: int) -> int {
    if a >= 0 {
        a / b
    } else {
        -((-a) / b)
    }
}

/// Milliseconds from the second value to the first.
pub open spec fn millis_between(a: &Dayjs, b: &Dayjs) -> int {
    (a.seconds() * 1000 + a.nanos() / 1_000_000) - (b.seconds() * 1000 + b.nanos() / 1_000_000)
}

/// Whole seconds from the second value to the first.
pub open spec fn seconds_between(a: &Dayjs, b: &Dayjs) -> int {
    a.seconds() - b.seconds()
}

/// Months from the second value to the first, by the year and month fields.
pub open spec fn months_between(a: &Dayjs, b: &Dayjs) -> int {
    (year_of_day(a.civil_day()) - year_of_day(b.civil_day())) * 12 + (month_of_day(
        a.civil_day(),
    ) - month_of_day(b.civil_day()))
}

/// Years from the second value to the first, by the year field.
pub open spec fn years_between(a: &Dayjs, b: &Dayjs) -> int {
    year_of_day(a.civil_day()) - year_of_day(b.civil_day())
}

/// The difference from `b` to `a` in `unit`.
pub open spec fn difference(a: &Dayjs, b: &Dayjs, unit: Unit) -> int {
    match unit {
        Unit::Year => years_between(a, b),
        Unit::Month => months_between(a, b),
        Unit::Week => quotient(quotient(seconds_between(a, b), 86_400), 7),
        Unit::Day => quotient(seconds_between(a, b), 86_400),
        Unit::Hour => quotient(seconds_between(a, b), 3600),
        Unit::Minute => quotient(seconds_between(a, b), 60),
        Unit::Second => seconds_between(a, b),
        Unit::Millisecond => millis_between(a, b),
    }
}

/// The quotient of `a` by `b`, cut toward zero.
fn divide(a: i64, b: i64) -> (q: i64)
    requires
        b > 0,
        a > -9_000_000_000_000_000_000,
    ensures
        q == quotient(a as int, b as int),
{
    if a >= 0 {
        a / b
    } else {
        -((-a) / b)
    }
}

/// Differences between two values.
pub trait DiffTime {
    /// The value is one that the differences accept.
    spec fn measurable(&self) -> bool;

    /// The difference from `other` to this value in `unit`.
    fn diff(&self, other: &Dayjs, unit: Unit) -> i64
        requires
            self.measurable(),
            other.wf(),
    ;

    /// The difference in milliseconds.
    fn diff_milliseconds(&self, other: &Dayjs) -> i64
        requires
            self.measurable(),
            other.wf(),
    ;

    /// The difference in whole seconds.
    fn diff_seconds(&self, other: &Dayjs) -> i64
        requires
            self.measurable(),
            other.wf(),
    ;

    /// The difference in whole minutes.
    fn diff_minutes(&self, other: &Dayjs) -> i64
        requires
            self.measurable(),
            other.wf(),
    ;

    /// The difference in whole hours.
    fn diff_hours(&self, other: &Dayjs) -> i64
        requires
            self.measurable(),
            other.wf(),
    ;

    /// The difference in whole days of 86 400 seconds.
    fn diff_days(&self, other: &Dayjs) -> i64
        requires
            self.measurable(),
            other.wf(),
    ;

    /// The difference in whole weeks.
    fn diff_weeks(&self, other: &Dayjs) -> i64
        requires
            self.measurable(),
            other.wf(),
    ;

    /// The difference of the month fields, years counted as twelve months.
    fn diff_months(&self, other: &Dayjs) -> i64
        requires
            self.measurable(),
            other.wf(),
    ;

    /// The difference of the year fields.
    fn diff_years(&self, other: &Dayjs) -> i64
        requires
            self.measurable(),
            other.wf(),
    ;
}

impl DiffTime for Dayjs {
    open spec fn measurable(&self) -> bool {
        self.wf()
    }

    fn diff(&self, other: &Dayjs, unit: Unit) -> (d: i64)
        ensures
            d == difference(self, other, unit),
    {
        match unit {
            Unit::Year => self.diff_years(other),
            Unit::Month => self.diff_months(other),
            Unit::Week => self.diff_weeks(other),
            Unit::Day => self.diff_days(other),
            Unit::Hour => self.diff_hours(other),
            Unit::Minute => self.diff_minutes(other),
            Unit::Second => self.diff_seconds(other),
            Unit::Millisecond => self.diff_milliseconds(other),
        }
    }

    fn diff_milliseconds(&self, other: &Dayjs) -> (d: i64)
        ensures
            d == millis_between(self, other),
    {
        self.value_of() - other.value_of()
    }

    fn diff_seconds(&self, other: &Dayjs) -> (d: i64)
        ensures
            d == seconds_between(self, other),
    {
        self.unix() - other.unix()
    }

    fn diff_minutes(&self, other: &Dayjs) -> (d: i64)
        ensures
            d == quotient(seconds_between(self, other), 60),
    {
        divide(self.diff_seconds(other), 60)
    }

    fn diff_hours(&self, other: &Dayjs) -> (d: i64)
        ensures
            d == quotient(seconds_between(self, other), 3600),
    {
        divide(self.diff_seconds(other), 3600)
    }

    fn diff_days(&self, other: &Dayjs) -> (d: i64)
        ensures
            d == quotient(seconds_between(self, other), 86_400),
    {
        divide(self.diff_seconds(other), 86_400)
    }

    fn diff_weeks(&self, other: &Dayjs) -> (d: i64)
        ensures
            d == quotient(quotient(seconds_between(self, other), 86_400), 7),
    {
        divide(self.diff_days(other), 7)
    }

    fn diff_months(&self, other: &Dayjs) -> (d: i64)
        ensures
            d == months_between(self, other),
    {
        let years: i64 = self.year() as i64 - other.year() as i64;
        let months: i64 = self.month_of_year() as i64 - other.month_of_year() as i64;
        years * 12 + months
    }

    fn diff_years(&self, other: &Dayjs) -> (d: i64)
        ensures
            d == years_between(self, other),
    {
        self.year() as i64 - other.year() as i64
    }
}

} // verus!
