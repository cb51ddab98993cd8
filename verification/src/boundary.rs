//! Flooring and ceiling a value to the edge of a unit.
//!
//! Years, months, weeks and days are cut in a local view of the instant: the
//! instant is moved by an offset from Greenwich, cut, and moved back. Hours,
//! minutes and seconds are cut in UTC. Weeks start on Sunday.

use crate::calendar::{
    day_number, day_of, lemma_date_fields, month_len, month_of_day, second_of_day,
    seconds_in_range, weekday_of_day, year_of_day, MAX_SECONDS, MIN_SECONDS,
};
use crate::civil::{civil_from_seconds, day_index, midnight_of};
use crate::clock::local_offset_at;
use crate::mutate::{last_day_of_month, lemma_same_day};
use crate::unit::{
    ascii_lowered, is_ascii_text, lowercase_of, same_text, to_lowercase, Unit,
};
use crate::value::{lemma_date_in_range, Dayjs};
use vstd::prelude::*;

verus! {

/// The first second of the unit that the local second `local` lies in.
#[verifier::opaque]
pub open spec fn floor_local(local: int, unit: Unit) -> int {
    let n = day_of(local);
    match unit {
        Unit::Year => day_number(year_of_day(n), 1, 1) * 86_400,
        Unit::Month => day_number(year_of_day(n), month_of_day(n), 1) * 86_400,
        Unit::Week => (n - weekday_of_day(n)) * 86_400,
        _ => n * 86_400,
    }
}

/// The last second of the unit that the local second `local` lies in.
#[verifier::opaque]
pub open spec fn ceil_local(local: int, unit: Unit) -> int {
    let n = day_of(local);
    let y = year_of_day(n);
    let m = month_of_day(n);
    match unit {
        Unit::Year => day_number(y, 12, 31) * 86_400 + 86_399,
        Unit::Month => day_number(y, m, month_len(y, m)) * 86_400 + 86_399,
        Unit::Week => (n - weekday_of_day(n) + 6) * 86_400 + 86_399,
        _ => n * 86_400 + 86_399,
    }
}

/// The instant, as seconds and nanoseconds, at which the unit of the instant
/// `secs`, `nanos` starts, seen at `offset` seconds east of Greenwich. Where
/// the local view or the start would leave the range of instants, and for
/// milliseconds, it is the instant itself.
pub open spec fn start_of_spec(secs: int, nanos: int, unit: Unit, offset: int) -> (int, int) {
    match unit {
        Unit::Millisecond => (secs, nanos),
        Unit::Second => (secs, 0),
        Unit::Minute => (secs - second_of_day(secs) % 60, 0),
        Unit::Hour => (secs - second_of_day(secs) % 3600, 0),
        _ => {
            let start = floor_local(secs + offset, unit) - offset;
            if seconds_in_range(secs + offset) && seconds_in_range(start) {
                (start, 0)
            } else {
                (secs, nanos)
            }
        },
    }
}

/// The instant at which the unit of the instant `secs`, `nanos` ends, seen at
/// `offset` seconds east of Greenwich: its last nanosecond. Where the local
/// view or the end would leave the range of instants, and for milliseconds,
/// it is the instant itself.
pub open spec fn end_of_spec(secs: int, nanos: int, unit: Unit, offset: int) -> (int, int) {
    match unit {
        Unit::Millisecond => (secs, nanos),
        Unit::Second => (secs, 999_999_999),
        Unit::Minute => (secs - second_of_day(secs) % 60 + 59, 999_999_999),
        Unit::Hour => (secs - second_of_day(secs) % 3600 + 3599, 999_999_999),
        _ => {
            let end = ceil_local(secs + offset, unit) - offset;
            if seconds_in_range(secs + offset) && seconds_in_range(end) {
                (end, 999_999_999)
            } else {
                (secs, nanos)
            }
        },
    }
}

/// The unit that a lower-case name asks a boundary of. Milliseconds have no
/// boundary of their own, and plurals and short forms are not known here.
pub open spec fn boundary_unit_named(t: Seq<char>) -> Option<Unit> {
    if t == "year"@ {
        Some(Unit::Year)
    } else if t == "month"@ {
        Some(Unit::Month)
    } else if t == "week"@ {
        Some(Unit::Week)
    } else if t == "day"@ || t == "date"@ {
        Some(Unit::Day)
    } else if t == "hour"@ {
        Some(Unit::Hour)
    } else if t == "minute"@ {
        Some(Unit::Minute)
    } else if t == "second"@ {
        Some(Unit::Second)
    } else {
        None
    }
}

/// `start` is where the unit that the lower-case name `lower` asks for
/// starts, seen at some offset of less than a day; for another name it is the
/// instant of `value` itself.
pub open spec fn starts_unit_named(value: &Dayjs, start: &Dayjs, lower: Seq<char>) -> bool {
    match boundary_unit_named(lower) {
        Some(u) => exists|offset: int|
            -86_400 < offset < 86_400 && (start.seconds(), start.nanos())
                == #[trigger] start_of_spec(value.seconds(), value.nanos(), u, offset),
        None => start.same_instant(value),
    }
}

/// `end` is where the unit that the lower-case name `lower` asks for ends,
/// seen at some offset of less than a day; for another name it is the instant
/// of `value` itself.
pub open spec fn ends_unit_named(value: &Dayjs, end: &Dayjs, lower: Seq<char>) -> bool {
    match boundary_unit_named(lower) {
        Some(u) => exists|offset: int|
            -86_400 < offset < 86_400 && (end.seconds(), end.nanos()) == #[trigger] end_of_spec(
                value.seconds(),
                value.nanos(),
                u,
                offset,
            ),
        None => end.same_instant(value),
    }
}

/// The unit that the lower-case name `t` asks a boundary of.
pub fn boundary_unit(t: &str) -> (unit: Option<Unit>)
    ensures
        unit == boundary_unit_named(t@),
{
    if same_text(t, "year") {
        Some(Unit::Year)
    } else if same_text(t, "month") {
        Some(Unit::Month)
    } else if same_text(t, "week") {
        Some(Unit::Week)
    } else if same_text(t, "day") || same_text(t, "date") {
        Some(Unit::Day)
    } else if same_text(t, "hour") {
        Some(Unit::Hour)
    } else if same_text(t, "minute") {
        Some(Unit::Minute)
    } else if same_text(t, "second") {
        Some(Unit::Second)
    } else {
        None
    }
}

/// Day of the week, 0 for Sunday, of day `n`.
fn weekday_index(n: i64) -> (w: i64)
    requires
        -200_000_000 < n < 200_000_000,
    ensures
        w == weekday_of_day(n as int),
{
    let r: i64 = (n + 4) % 7;
    if r < 0 {
        r + 7
    } else {
        r
    }
}

/// The second `secs` cut to a whole number of `length` seconds, which is a
/// minute or an hour.
pub fn time_floor(secs: i64, length: i64) -> (cut: i64)
    requires
        seconds_in_range(secs as int),
        length == 60 || length == 3600,
    ensures
        cut == secs - second_of_day(secs as int) % (length as int),
        seconds_in_range(cut as int),
        seconds_in_range(cut + length - 1),
{
    let r: i64 = secs % 86_400;
    let time: i64 = if r < 0 {
        r + 86_400
    } else {
        r
    };
    proof {
        lemma_same_day(secs as int, time - time % length);
        lemma_same_day(secs as int, time - time % length + length - 1);
    }
    secs - time % length
}

/// The unit is one of years, months, weeks and days.
pub open spec fn is_date_unit(unit: Unit) -> bool {
    unit == Unit::Year || unit == Unit::Month || unit == Unit::Week || unit == Unit::Day
}

/// The first second of the unit of dates that the local second `local` lies in.
pub fn first_second(local: i64, unit: Unit) -> (first: i64)
    requires
        seconds_in_range(local as int),
        is_date_unit(unit),
    ensures
        first == floor_local(local as int, unit),
        MIN_SECONDS - 604_800 <= first <= MAX_SECONDS,
{
    reveal(floor_local);
    let n = day_index(local);
    match unit {
        Unit::Year | Unit::Month => {
            let date = civil_from_seconds(local);
            let month: u32 = match unit {
                Unit::Year => 1,
                _ => date.1,
            };
            proof {
                lemma_date_fields(n as int, date.0 as int, date.1 as int, date.2 as int);
                lemma_date_in_range(date.0 as int, month as int, 1, 0);
            }
            match midnight_of(date.0, month, 1) {
                Some(first) => first,
                None => local,
            }
        },
        Unit::Week => (n - weekday_index(n)) * 86_400,
        _ => n * 86_400,
    }
}

/// The last second of the unit of dates that the local second `local` lies in.
pub fn last_second(local: i64, unit: Unit) -> (last: i64)
    requires
        seconds_in_range(local as int),
        is_date_unit(unit),
    ensures
        last == ceil_local(local as int, unit),
        MIN_SECONDS <= last <= MAX_SECONDS + 604_800,
{
    reveal(ceil_local);
    let n = day_index(local);
    match unit {
        Unit::Year | Unit::Month => {
            let date = civil_from_seconds(local);
            proof {
                lemma_date_fields(n as int, date.0 as int, date.1 as int, date.2 as int);
            }
            let (month, day): (u32, u32) = match unit {
                Unit::Year => (12, 31),
                _ => (date.1, last_day_of_month(date.0, date.1)),
            };
            proof {
                lemma_date_in_range(date.0 as int, month as int, day as int, 0);
            }
            match midnight_of(date.0, month, day) {
                Some(first) => first + 86_399,
                None => local,
            }
        },
        Unit::Week => (n - weekday_index(n) + 6) * 86_400 + 86_399,
        _ => n * 86_400 + 86_399,
    }
}

/// The instant at which the unit of the instant `secs`, `nanos` starts, seen
/// at `offset` seconds east of Greenwich.
pub fn start_instant(secs: i64, nanos: u32, unit: Unit, offset: i32) -> (start: (i64, u32))
    requires
        seconds_in_range(secs as int),
        nanos < 2_000_000_000,
        -86_400 < offset < 86_400,
    ensures
        (start.0 as int, start.1 as int) == start_of_spec(
            secs as int,
            nanos as int,
            unit,
            offset as int,
        ),
        seconds_in_range(start.0 as int),
        start.1 < 2_000_000_000,
{
    match unit {
        Unit::Millisecond => (secs, nanos),
        Unit::Second => (secs, 0),
        Unit::Minute => (time_floor(secs, 60), 0),
        Unit::Hour => (time_floor(secs, 3600), 0),
        _ => {
            let local = secs + offset as i64;
            if MIN_SECONDS <= local && local <= MAX_SECONDS {
                let start = first_second(local, unit) - offset as i64;
                if MIN_SECONDS <= start && start <= MAX_SECONDS {
                    return (start, 0);
                }
            }
            (secs, nanos)
        },
    }
}

/// The instant at which the unit of the instant `secs`, `nanos` ends, seen at
/// `offset` seconds east of Greenwich.
pub fn end_instant(secs: i64, nanos: u32, unit: Unit, offset: i32) -> (end: (i64, u32))
    requires
        seconds_in_range(secs as int),
        nanos < 2_000_000_000,
        -86_400 < offset < 86_400,
    ensures
        (end.0 as int, end.1 as int) == end_of_spec(
            secs as int,
            nanos as int,
            unit,
            offset as int,
        ),
        seconds_in_range(end.0 as int),
        end.1 < 2_000_000_000,
{
    match unit {
        Unit::Millisecond => (secs, nanos),
        Unit::Second => (secs, 999_999_999),
        Unit::Minute => (time_floor(secs, 60) + 59, 999_999_999),
        Unit::Hour => (time_floor(secs, 3600) + 3599, 999_999_999),
        _ => {
            let local = secs + offset as i64;
            if MIN_SECONDS <= local && local <= MAX_SECONDS {
                let end = last_second(local, unit) - offset as i64;
                if MIN_SECONDS <= end && end <= MAX_SECONDS {
                    return (end, 999_999_999);
                }
            }
            (secs, nanos)
        },
    }
}

impl Dayjs {
    /// The value at the start of its unit, seen at `offset` seconds east of
    /// Greenwich. The zone hint is kept.
    pub fn start_of_at(&self, unit: Unit, offset: i32) -> (start: Dayjs)
        requires
            self.wf(),
            -86_400 < offset < 86_400,
        ensures
            start.wf(),
            (start.seconds(), start.nanos()) == start_of_spec(
                self.seconds(),
                self.nanos(),
                unit,
                offset as int,
            ),
            start.zone() == self.zone(),
    {
        let instant = start_instant(self.unix(), self.nanosecond(), unit, offset);
        let mut result = self.clone_dayjs();
        result.set_instant(instant.0, instant.1);
        result
    }

    /// The value at the end of its unit, seen at `offset` seconds east of
    /// Greenwich. The zone hint is kept.
    pub fn end_of_at(&self, unit: Unit, offset: i32) -> (end: Dayjs)
        requires
            self.wf(),
            -86_400 < offset < 86_400,
        ensures
            end.wf(),
            (end.seconds(), end.nanos()) == end_of_spec(
                self.seconds(),
                self.nanos(),
                unit,
                offset as int,
            ),
            end.zone() == self.zone(),
    {
        let instant = end_instant(self.unix(), self.nanosecond(), unit, offset);
        let mut result = self.clone_dayjs();
        result.set_instant(instant.0, instant.1);
        result
    }

    /// The value at the start of the unit that `unit` names, in any case of
    /// letters, seen at the machine's local offset at that instant. Another
    /// name gives the value itself.
    pub fn start_of(&self, unit: &str) -> (start: Dayjs)
        requires
            self.wf(),
        ensures
            start.wf(),
            start.zone() == self.zone(),
            starts_unit_named(self, &start, lowercase_of(unit@)),
            is_ascii_text(unit@) ==> starts_unit_named(self, &start, ascii_lowered(unit@)),
    {
        let lower = to_lowercase(unit);
        match boundary_unit(lower.as_str()) {
            Some(u) => {
                let offset = local_offset_at(self.unix());
                self.start_of_at(u, offset)
            },
            None => self.clone_dayjs(),
        }
    }

    /// The value at the end of the unit that `unit` names, in any case of
    /// letters, seen at the machine's local offset at that instant. Another
    /// name gives the value itself.
    pub fn end_of(&self, unit: &str) -> (end: Dayjs)
        requires
            self.wf(),
        ensures
            end.wf(),
            end.zone() == self.zone(),
            ends_unit_named(self, &end, lowercase_of(unit@)),
            is_ascii_text(unit@) ==> ends_unit_named(self, &end, ascii_lowered(unit@)),
    {
        let lower = to_lowercase(unit);
        match boundary_unit(lower.as_str()) {
            Some(u) => {
                let offset = local_offset_at(self.unix());
                self.end_of_at(u, offset)
            },
            None => self.clone_dayjs(),
        }
    }
}

} // verus!
