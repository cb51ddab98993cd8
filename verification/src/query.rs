//! Comparing values, exactly or by the unit they fall in.
//!
//! A comparison by unit compares where the unit of each value starts; by
//! milliseconds it is the exact comparison.

use crate::boundary::start_of_spec;
use crate::clock::local_offset_at;
use crate::unit::Unit;
use crate::value::Dayjs;
use vstd::prelude::*;

verus! {

/// The first instant is earlier than the second.
pub open spec fn instant_before(a: (int, int), b: (int, int)) -> bool {
    a.0 < b.0 || (a.0 == b.0 && a.1 < b.1)
}

/// Where the unit of a value starts, seen at `offset` seconds east of Greenwich.
pub open spec fn unit_start(value: &Dayjs, unit: Unit, offset: int) -> (int, int) {
    start_of_spec(value.seconds(), value.nanos(), unit, offset)
}

/// An offset from Greenwich of less than a day.
pub open spec fn offset_ok(offset: int) -> bool {
    -86_400 < offset < 86_400
}

/// The unit of `a`, seen at offset `own`, starts before that of `b`, seen at `others`.
pub open spec fn before_by_unit(a: &Dayjs, b: &Dayjs, unit: Unit, own: int, others: int) -> bool {
    instant_before(unit_start(a, unit, own), unit_start(b, unit, others))
}

/// The units of `a`, seen at offset `own`, and of `b`, seen at `others`,
/// start at the same instant.
pub open spec fn same_by_unit(a: &Dayjs, b: &Dayjs, unit: Unit, own: int, others: int) -> bool {
    unit_start(a, unit, own) == unit_start(b, unit, others)
}

/// The unit of `value` starts strictly between those of `start` and `end`,
/// each seen at its own offset.
pub open spec fn between_by_unit(
    value: &Dayjs,
    start: &Dayjs,
    end: &Dayjs,
    unit: Unit,
    own: int,
    starts: int,
    ends: int,
) -> bool {
    before_by_unit(start, value, unit, starts, own) && before_by_unit(
        value,
        end,
        unit,
        own,
        ends,
    )
}

/// The value lies strictly between the two others.
pub open spec fn strictly_between(value: &Dayjs, start: &Dayjs, end: &Dayjs) -> bool {
    start.earlier(value) && value.earlier(end)
}

/// Questions about the order of two or three values.
pub trait QueryTime {
    /// The value is one that the comparisons by unit accept.
    spec fn comparable(&self) -> bool;

    /// Whether this instant is earlier than the other.
    fn is_before(&self, other: &Dayjs) -> bool;

    /// Whether the unit of this value starts before that of the other.
    fn is_before_unit(&self, other: &Dayjs, unit: Unit) -> bool
        requires
            self.comparable(),
            other.wf(),
    ;

    /// Whether this instant is later than the other.
    fn is_after(&self, other: &Dayjs) -> bool;

    /// Whether the unit of this value starts after that of the other.
    fn is_after_unit(&self, other: &Dayjs, unit: Unit) -> bool
        requires
            self.comparable(),
            other.wf(),
    ;

    /// Whether the two are the same instant.
    fn is_same(&self, other: &Dayjs) -> bool;

    /// Whether the units of the two values start at the same instant.
    fn is_same_unit(&self, other: &Dayjs, unit: Unit) -> bool
        requires
            self.comparable(),
            other.wf(),
    ;

    /// Whether this instant is the other or earlier.
    fn is_same_or_before(&self, other: &Dayjs) -> bool;

    /// Whether this instant is the other or later.
    fn is_same_or_after(&self, other: &Dayjs) -> bool;

    /// Whether this instant lies between the two, both excluded.
    fn is_between(&self, start: &Dayjs, end: &Dayjs) -> bool;

    /// Whether the unit of this value starts between those of the two, both excluded.
    fn is_between_unit(&self, start: &Dayjs, end: &Dayjs, unit: Unit) -> bool
        requires
            self.comparable(),
            start.wf(),
            end.wf(),
    ;
}

impl Dayjs {
    /// Whether the unit of this value, seen at `own` seconds east of
    /// Greenwich, starts before that of the other, seen at `others`.
    pub fn is_before_unit_at(&self, other: &Dayjs, unit: Unit, own: i32, others: i32) -> (before:
        bool)
        requires
            self.wf(),
            other.wf(),
            offset_ok(own as int),
            offset_ok(others as int),
        ensures
            before == before_by_unit(self, other, unit, own as int, others as int),
    {
        self.start_of_at(unit, own).is_before(&other.start_of_at(unit, others))
    }

    /// Whether the unit of this value, seen at `own` seconds east of
    /// Greenwich, starts after that of the other, seen at `others`.
    pub fn is_after_unit_at(&self, other: &Dayjs, unit: Unit, own: i32, others: i32) -> (after:
        bool)
        requires
            self.wf(),
            other.wf(),
            offset_ok(own as int),
            offset_ok(others as int),
        ensures
            after == before_by_unit(other, self, unit, others as int, own as int),
    {
        self.start_of_at(unit, own).is_after(&other.start_of_at(unit, others))
    }

    /// Whether the unit of this value, seen at `own` seconds east of
    /// Greenwich, starts where that of the other does, seen at `others`.
    pub fn is_same_unit_at(&self, other: &Dayjs, unit: Unit, own: i32, others: i32) -> (same: bool)
        requires
            self.wf(),
            other.wf(),
            offset_ok(own as int),
            offset_ok(others as int),
        ensures
            same == same_by_unit(self, other, unit, own as int, others as int),
    {
        self.start_of_at(unit, own).is_same(&other.start_of_at(unit, others))
    }

    /// Whether the unit of this value starts between those of the two, both
    /// excluded, each seen at its own offset east of Greenwich.
    pub fn is_between_unit_at(
        &self,
        start: &Dayjs,
        end: &Dayjs,
        unit: Unit,
        own: i32,
        starts: i32,
        ends: i32,
    ) -> (between: bool)
        requires
            self.wf(),
            start.wf(),
            end.wf(),
            offset_ok(own as int),
            offset_ok(starts as int),
            offset_ok(ends as int),
        ensures
            between == between_by_unit(
                self,
                start,
                end,
                unit,
                own as int,
                starts as int,
                ends as int,
            ),
    {
        let own_start = self.start_of_at(unit, own);
        own_start.is_between(&start.start_of_at(unit, starts), &end.start_of_at(unit, ends))
    }
}

impl QueryTime for Dayjs {
    open spec fn comparable(&self) -> bool {
        self.wf()
    }

    fn is_before(&self, other: &Dayjs) -> (before: bool)
        ensures
            before == self.earlier(other),
    {
        let a = self.unix();
        let b = other.unix();
        a < b || (a == b && self.nanosecond() < other.nanosecond())
    }

    fn is_before_unit(&self, other: &Dayjs, unit: Unit) -> (before: bool)
        ensures
            exists|own: int, others: int|
                offset_ok(own) && offset_ok(others) && before == #[trigger] before_by_unit(
                    self,
                    other,
                    unit,
                    own,
                    others,
                ),
    {
        let own = local_offset_at(self.unix());
        let others = local_offset_at(other.unix());
        self.is_before_unit_at(other, unit, own, others)
    }

    fn is_after(&self, other: &Dayjs) -> (after: bool)
        ensures
            after == other.earlier(self),
    {
        let a = self.unix();
        let b = other.unix();
        a > b || (a == b && self.nanosecond() > other.nanosecond())
    }

    fn is_after_unit(&self, other: &Dayjs, unit: Unit) -> (after: bool)
        ensures
            exists|own: int, others: int|
                offset_ok(own) && offset_ok(others) && after == #[trigger] before_by_unit(
                    other,
                    self,
                    unit,
                    others,
                    own,
                ),
    {
        let own = local_offset_at(self.unix());
        let others = local_offset_at(other.unix());
        self.is_after_unit_at(other, unit, own, others)
    }

    fn is_same(&self, other: &Dayjs) -> (same: bool)
        ensures
            same == self.same_instant(other),
    {
        self.unix() == other.unix() && self.nanosecond() == other.nanosecond()
    }

    fn is_same_unit(&self, other: &Dayjs, unit: Unit) -> (same: bool)
        ensures
            exists|own: int, others: int|
                offset_ok(own) && offset_ok(others) && same == #[trigger] same_by_unit(
                    self,
                    other,
                    unit,
                    own,
                    others,
                ),
    {
        let own = local_offset_at(self.unix());
        let others = local_offset_at(other.unix());
        self.is_same_unit_at(other, unit, own, others)
    }

    fn is_same_or_before(&self, other: &Dayjs) -> (not_after: bool)
        ensures
            not_after == !other.earlier(self),
    {
        !self.is_after(other)
    }

    fn is_same_or_after(&self, other: &Dayjs) -> (not_before: bool)
        ensures
            not_before == !self.earlier(other),
    {
        !self.is_before(other)
    }

    fn is_between(&self, start: &Dayjs, end: &Dayjs) -> (between: bool)
        ensures
            between == strictly_between(self, start, end),
    {
        self.is_after(start) && self.is_before(end)
    }

    fn is_between_unit(&self, start: &Dayjs, end: &Dayjs, unit: Unit) -> (between: bool)
        ensures
            exists|own: int, starts: int, ends: int|
                offset_ok(own) && offset_ok(starts) && offset_ok(ends) && between
                    == #[trigger] between_by_unit(self, start, end, unit, own, starts, ends),
    {
        let own = local_offset_at(self.unix());
        let starts = local_offset_at(start.unix());
        let ends = local_offset_at(end.unix());
        self.is_between_unit_at(start, end, unit, own, starts, ends)
    }
}

/// The earlier of the two; the second where neither is earlier.
pub fn min(a: &Dayjs, b: &Dayjs) -> (least: Dayjs)
    ensures
        least.same_instant(if a.earlier(b) { a } else { b }),
        least.zone() == (if a.earlier(b) { a } else { b }).zone(),
{
    if a.is_before(b) {
        a.clone_dayjs()
    } else {
        b.clone_dayjs()
    }
}

/// The later of the two; the second where neither is later.
pub fn max(a: &Dayjs, b: &Dayjs) -> (greatest: Dayjs)
    ensures
        greatest.same_instant(if b.earlier(a) { a } else { b }),
        greatest.zone() == (if b.earlier(a) { a } else { b }).zone(),
{
    if a.is_after(b) {
        a.clone_dayjs()
    } else {
        b.clone_dayjs()
    }
}

} // verus!
