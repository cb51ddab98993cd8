//! Laws that relate the operations to each other.

use crate::boundary::{ceil_local, end_of_spec, floor_local, is_date_unit, start_of_spec};
use crate::calendar::{
    day_number, day_of, lemma_date_fields, lemma_month_step, lemma_year_step, month_len,
    month_of_day, second_of_day, seconds_in_range, weekday_of_day, year_of_day, MAX_SECONDS,
    MAX_YEAR, MIN_YEAR,
};
use crate::create::from_str;
use crate::display::{spells_instant, DisplayTime};
use crate::query::{instant_before, strictly_between};
use crate::unit::Unit;
use crate::value::{lemma_date_in_range, Dayjs};
use vstd::prelude::*;

verus! {

/// The year of an instant of the range is a year of the range, and its date
/// is a valid one.
pub proof fn lemma_fields_in_range(secs: int)
    requires
        seconds_in_range(secs),
    ensures
        MIN_YEAR <= year_of_day(day_of(secs)) <= MAX_YEAR,
        1 <= month_of_day(day_of(secs)) <= 12,
{
    let n = day_of(secs);
    crate::calendar::lemma_range_bounds();
    crate::calendar::lemma_day_has_date(n);
    let y = year_of_day(n);
    if y < MIN_YEAR {
        crate::calendar::lemma_year_start_monotonic(y + 1, MIN_YEAR as int);
    }
    if y > MAX_YEAR {
        crate::calendar::lemma_year_start_monotonic(MAX_YEAR + 1, y);
    }
}

/// The first second of a unit is its own first second and not later than
/// the second it was taken of.
pub proof fn lemma_floor_fixed(local: int, unit: Unit)
    requires
        seconds_in_range(local),
        unit == Unit::Year || unit == Unit::Month || unit == Unit::Week || unit == Unit::Day,
    ensures
        floor_local(floor_local(local, unit), unit) == floor_local(local, unit),
        floor_local(local, unit) <= local,
        floor_local(local, unit) % 86_400 == 0,
{
    reveal(floor_local);
    let n = day_of(local);
    crate::calendar::lemma_day_has_date(n);
    lemma_fields_in_range(local);
    let y = year_of_day(n);
    let m = month_of_day(n);
    if unit == Unit::Year {
        lemma_date_in_range(y, 1, 1, 0);
        lemma_date_fields(day_number(y, 1, 1), y, 1, 1);
    } else if unit == Unit::Month {
        lemma_date_in_range(y, m, 1, 0);
        lemma_date_fields(day_number(y, m, 1), y, m, 1);
    } else if unit == Unit::Week {
        let first = n - weekday_of_day(n);
        assert(day_of(first * 86_400) == first);
        assert(weekday_of_day(first) == 0);
    } else {
        assert(day_of(n * 86_400) == n);
    }
}

/// A first second of a day that lies less than a day from an instant of the
/// range, and not after the range, is in the range.
pub proof fn lemma_aligned_in_range(aligned: int, near: int)
    requires
        aligned % 86_400 == 0,
        seconds_in_range(near),
        near - 86_400 < aligned <= crate::calendar::MAX_SECONDS,
    ensures
        seconds_in_range(aligned),
{
}

/// Cutting an instant to a whole number of `length` seconds, where a day is
/// a whole number of those, leaves nothing to cut.
pub proof fn lemma_time_floor_fixed(secs: int, length: int)
    requires
        length == 60 || length == 3600,
    ensures
        crate::calendar::second_of_day(secs - crate::calendar::second_of_day(secs) % length)
            % length == 0,
{
    let time = crate::calendar::second_of_day(secs);
    let cut = secs - time % length;
    assert(crate::calendar::second_of_day(cut) == time - time % length);
}

/// The start of a unit is the start of its own unit: flooring twice, at one
/// offset, gives what flooring once gives.
pub proof fn law_start_of_idempotent(secs: int, nanos: int, unit: Unit, offset: int)
    requires
        seconds_in_range(secs),
        0 <= nanos < 2_000_000_000,
        -86_400 < offset < 86_400,
    ensures
        ({
            let once = start_of_spec(secs, nanos, unit, offset);
            start_of_spec(once.0, once.1, unit, offset) == once
        }),
{
    let local = secs + offset;
    match unit {
        Unit::Millisecond => {},
        Unit::Second => {},
        Unit::Minute => {
            lemma_time_floor_fixed(secs, 60);
        },
        Unit::Hour => {
            lemma_time_floor_fixed(secs, 3600);
        },
        _ => {
            let aligned = floor_local(local, unit);
            let start = aligned - offset;
            if seconds_in_range(local) && seconds_in_range(start) {
                lemma_floor_fixed(local, unit);
                lemma_aligned_in_range(aligned, start);
                assert(start + offset == aligned);
                assert(start_of_spec(start, 0, unit, offset) == (start, 0int));
            }
        },
    }
}

/// The last day of the year of day `n` lies in that year and not before
/// `n`, and the day after it is the first of the next year.
pub proof fn lemma_year_end(n: int)
    ensures
        ({
            let y = year_of_day(n);
            let last = day_number(y, 12, 31);
            &&& n <= last
            &&& year_of_day(last) == y
            &&& year_of_day(last + 1) == y + 1
            &&& last + 1 == day_number(y + 1, 1, 1)
        }),
{
    crate::calendar::lemma_day_has_date(n);
    let y = year_of_day(n);
    let last = day_number(y, 12, 31);
    lemma_year_step(y);
    lemma_date_fields(last, y, 12, 31);
    lemma_date_fields(last + 1, y + 1, 1, 1);
}

/// The last day of the month of day `n` lies in that month and not before
/// `n`, and the day after it is the first of a month.
pub proof fn lemma_month_end(n: int)
    ensures
        ({
            let y = year_of_day(n);
            let m = month_of_day(n);
            let last = day_number(y, m, month_len(y, m));
            &&& n <= last
            &&& year_of_day(last) == y
            &&& month_of_day(last) == m
            &&& last + 1 == day_number(year_of_day(last + 1), month_of_day(last + 1), 1)
        }),
{
    crate::calendar::lemma_day_has_date(n);
    let y = year_of_day(n);
    let m = month_of_day(n);
    let last = day_number(y, m, month_len(y, m));
    lemma_month_step(y, m);
    lemma_year_step(y);
    lemma_date_fields(last, y, m, month_len(y, m));
    if m == 12 {
        lemma_date_fields(last + 1, y + 1, 1, 1);
    } else {
        lemma_date_fields(last + 1, y, m + 1, 1);
    }
}

/// The last second of a day is in that day, and the second after it starts the next.
pub proof fn lemma_day_edges(day: int)
    ensures
        day_of(day * 86_400) == day,
        day_of(day * 86_400 + 86_399) == day,
        (day * 86_400 + 86_399) % 86_400 == 86_399,
        day * 86_400 + 86_399 + 1 == (day + 1) * 86_400,
{
}

/// The last second of a unit lies in the unit, not before the second it was
/// taken of, and the second after it starts a unit.
pub proof fn lemma_ceil_closes(local: int, unit: Unit)
    requires
        is_date_unit(unit),
    ensures
        local <= ceil_local(local, unit),
        ceil_local(local, unit) % 86_400 == 86_399,
        floor_local(ceil_local(local, unit), unit) == floor_local(local, unit),
        floor_local(ceil_local(local, unit) + 1, unit) == ceil_local(local, unit) + 1,
{
    reveal(floor_local);
    reveal(ceil_local);
    let n = day_of(local);
    let y = year_of_day(n);
    let m = month_of_day(n);
    let last: int = if unit == Unit::Year {
        day_number(y, 12, 31)
    } else if unit == Unit::Month {
        day_number(y, m, month_len(y, m))
    } else if unit == Unit::Week {
        n - weekday_of_day(n) + 6
    } else {
        n
    };
    assert(ceil_local(local, unit) == last * 86_400 + 86_399);
    lemma_day_edges(last);
    lemma_day_edges(last + 1);
    if unit == Unit::Year {
        lemma_year_end(n);
    } else if unit == Unit::Month {
        lemma_month_end(n);
    } else if unit == Unit::Week {
        assert(weekday_of_day(last) == 6);
        assert(weekday_of_day(last + 1) == 0);
    }
    assert(n <= last);
    assert(local <= last * 86_400 + 86_399);
}

/// The unit of the value fits into the range of instants with its start and
/// its end, seen at `offset` seconds east of Greenwich.
pub open spec fn unit_fits(secs: int, unit: Unit, offset: int) -> bool {
    is_date_unit(unit) ==> seconds_in_range(secs + offset) && seconds_in_range(
        floor_local(secs + offset, unit) - offset,
    ) && seconds_in_range(ceil_local(secs + offset, unit) - offset)
}

/// The end of a unit is its last nanosecond: it lies in the same unit as the
/// value and not before it, and the nanosecond after it starts a unit. This
/// holds of a value outside a leap second whose unit fits into the range of
/// instants; milliseconds have no end of their own.
pub proof fn law_end_of_closes_unit(secs: int, nanos: int, unit: Unit, offset: int)
    requires
        seconds_in_range(secs),
        0 <= nanos < 1_000_000_000,
        -86_400 < offset < 86_400,
        unit != Unit::Millisecond,
        unit_fits(secs, unit, offset),
    ensures
        ({
            let end = end_of_spec(secs, nanos, unit, offset);
            &&& end.1 == 999_999_999
            &&& !instant_before(end, (secs, nanos))
            &&& start_of_spec(end.0, end.1, unit, offset) == start_of_spec(
                secs,
                nanos,
                unit,
                offset,
            )
            &&& start_of_spec(end.0 + 1, 0, unit, offset) == (end.0 + 1, 0int)
        }),
{
    let local = secs + offset;
    match unit {
        Unit::Millisecond => {},
        Unit::Second => {},
        Unit::Minute => {
            lemma_time_ceil(secs, 60);
        },
        Unit::Hour => {
            lemma_time_ceil(secs, 3600);
        },
        _ => {
            lemma_ceil_closes(local, unit);
            let last = ceil_local(local, unit);
            let end = last - offset;
            assert(end + offset == last);
            assert(seconds_in_range(last)) by {
                assert(last % 86_400 == 86_399);
                assert(MAX_SECONDS % 86_400 == 86_399);
            }
            assert(end + 1 + offset == last + 1);
            if seconds_in_range(last + 1) {
                lemma_floor_fixed(last + 1, unit);
            }
        },
    }
}

/// The last second of the minute or the hour of a second lies in the same
/// minute or hour, and the second after it starts one.
pub proof fn lemma_time_ceil(secs: int, length: int)
    requires
        length == 60 || length == 3600,
    ensures
        ({
            let last = secs - second_of_day(secs) % length + length - 1;
            &&& secs <= last
            &&& last - second_of_day(last) % length == secs - second_of_day(secs) % length
            &&& second_of_day(last + 1) % length == 0
        }),
{
    let time = second_of_day(secs);
    let last = secs - time % length + length - 1;
    assert(second_of_day(last) == time - time % length + length - 1);
    if time - time % length + length == 86_400 {
        assert(second_of_day(last + 1) == 0);
    } else {
        assert(second_of_day(last + 1) == time - time % length + length);
    }
}

/// A value reads back from its own text as the same instant: reading what
/// `to_iso` writes gives the instant of the value. This holds of a value
/// whose year has at most four digits and no sign and whose instant is a
/// whole number of milliseconds outside a leap second: the text holds no
/// more than that.
pub fn round_trip(value: &Dayjs) -> (back: Result<Dayjs, String>)
    requires
        value.wf(),
        0 <= value.year_field() <= 9999,
        value.nanos() < 1_000_000_000,
        value.nanos() % 1_000_000 == 0,
    ensures
        back matches Ok(d) && d.same_instant(value),
{
    let text = value.to_iso();
    assert(spells_instant(text@, value.seconds(), value.nanos()));
    from_str(text.as_str())
}

/// Of two values exactly one holds: the first is earlier, they are the same
/// instant, or the first is later.
pub proof fn law_order_trichotomy(a: Dayjs, b: Dayjs)
    ensures
        a.earlier(&b) || a.same_instant(&b) || b.earlier(&a),
        !(a.earlier(&b) && a.same_instant(&b)),
        !(a.earlier(&b) && b.earlier(&a)),
        !(a.same_instant(&b) && b.earlier(&a)),
{
}

/// A value strictly inside two others lies between them, and neither end
/// lies between the two.
pub proof fn law_between_exclusive(start: Dayjs, mid: Dayjs, end: Dayjs)
    requires
        start.earlier(&mid),
        mid.earlier(&end),
    ensures
        strictly_between(&mid, &start, &end),
        !strictly_between(&start, &start, &end),
        !strictly_between(&end, &start, &end),
{
}

} // verus!
