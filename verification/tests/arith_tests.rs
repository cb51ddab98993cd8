use dayjs::{from_str, DisplayTime, OperationTime, QueryTime};

#[test]
fn adds_fixed_lengths_of_time() {
    let mut d = from_str("2023-05-15").unwrap();
    d.add_days(7);
    assert_eq!(d.to_iso(), "2023-05-22T00:00:00.000Z");
    assert_eq!((d.year(), d.month(), d.date()), (2023, 4, 22));
    d.add_weeks(1);
    assert_eq!(d.to_iso(), "2023-05-29T00:00:00.000Z");
    d.add_hours(25);
    assert_eq!(d.to_iso(), "2023-05-30T01:00:00.000Z");
    d.add_minutes(61);
    assert_eq!(d.to_iso(), "2023-05-30T02:01:00.000Z");
    d.add_seconds(59);
    assert_eq!(d.to_iso(), "2023-05-30T02:01:59.000Z");
    d.add(1);
    assert_eq!(d.to_iso(), "2023-05-30T02:02:00.000Z");
    d.add_milliseconds(1500);
    assert_eq!(d.to_iso(), "2023-05-30T02:02:01.500Z");
    assert_eq!(d.nanosecond(), 500_000_000);
    d.add_milliseconds(-501);
    assert_eq!(d.to_iso(), "2023-05-30T02:02:00.999Z");
}

#[test]
fn subtracts_fixed_lengths_of_time() {
    let mut d = from_str("2023-05-15").unwrap();
    d.subtract_days(7);
    assert_eq!((d.year(), d.month(), d.date()), (2023, 4, 8));
    d.subtract_weeks(1);
    assert_eq!(d.to_iso(), "2023-05-01T00:00:00.000Z");
    d.subtract_hours(1);
    assert_eq!(d.to_iso(), "2023-04-30T23:00:00.000Z");
    d.subtract_minutes(30);
    assert_eq!(d.to_iso(), "2023-04-30T22:30:00.000Z");
    d.subtract_seconds(30);
    assert_eq!(d.to_iso(), "2023-04-30T22:29:30.000Z");
    d.subtract(30);
    assert_eq!(d.to_iso(), "2023-04-30T22:29:00.000Z");
    d.subtract_milliseconds(1);
    assert_eq!(d.to_iso(), "2023-04-30T22:28:59.999Z");
    d.subtract_days(-1);
    assert_eq!(d.to_iso(), "2023-05-01T22:28:59.999Z");
}

#[test]
fn a_year_is_365_days() {
    let mut d = from_str("2023-05-15").unwrap();
    d.add_years(1);
    assert_eq!(d.to_iso(), "2024-05-14T00:00:00.000Z");
    assert_eq!(d.unix(), 1715644800);
    d.subtract_years(1);
    assert_eq!(d.to_iso(), "2023-05-15T00:00:00.000Z");
    d.subtract_years(3);
    assert_eq!(d.to_iso(), "2020-05-15T00:00:00.000Z");
}

#[test]
fn months_step_through_the_month_field() {
    let mut d = from_str("2023-05-15").unwrap();
    d.add_months(2);
    assert_eq!((d.year(), d.month(), d.date()), (2023, 6, 15));
    assert_eq!(d.unix(), 1689379200);
    d.subtract_months(6);
    assert_eq!(d.to_iso(), "2023-01-15T00:00:00.000Z");
    d.subtract_months(1);
    assert_eq!(d.to_iso(), "2023-01-15T00:00:00.000Z");
    d.add_months(0);
    assert_eq!(d.to_iso(), "2023-01-15T00:00:00.000Z");
    d.add_months(-3);
    assert_eq!(d.to_iso(), "2023-01-15T00:00:00.000Z");
    d.add_months(40);
    assert_eq!(d.to_iso(), "2023-12-15T00:00:00.000Z");
    d.add_months(i32::MAX);
    assert_eq!(d.to_iso(), "2023-12-15T00:00:00.000Z");
}

#[test]
fn a_month_step_to_a_missing_day_is_not_taken() {
    let mut d = from_str("2023-01-31T08:00:00Z").unwrap();
    d.add_months(1);
    assert_eq!(d.to_iso(), "2023-01-31T08:00:00.000Z");
    d.add_months(5);
    assert_eq!(d.to_iso(), "2023-01-31T08:00:00.000Z");
    let mut e = from_str("2023-03-31").unwrap();
    e.subtract_months(1);
    assert_eq!(e.to_iso(), "2023-03-31T00:00:00.000Z");
    let mut f = from_str("2023-03-30").unwrap();
    f.add_months(3);
    assert_eq!(f.to_iso(), "2023-06-30T00:00:00.000Z");
}

#[test]
fn a_move_out_of_range_is_not_made() {
    let mut d = from_str("2023-05-15T10:30:45.5Z").unwrap();
    let before = d.clone_dayjs();
    d.add_weeks(i32::MAX);
    assert!(d.is_same(&before));
    d.subtract_weeks(i32::MAX);
    assert!(d.is_same(&before));
    d.add_years(i32::MAX);
    assert!(d.is_same(&before));
    d.subtract_years(i32::MIN);
    assert!(d.is_same(&before));
    d.add_days(i32::MIN);
    assert!(d.is_same(&before));
    d.add_years(260_000);
    assert_eq!(d.year(), 261_850);
    let far = d.clone_dayjs();
    d.add_years(10_000);
    assert!(d.is_same(&far));
}

#[test]
fn a_leap_second_moves_as_one_second() {
    let mut d = from_str("2016-12-31T23:59:60.5Z").unwrap();
    assert_eq!((d.unix(), d.nanosecond()), (1483228799, 1_500_000_000));
    d.add_seconds(1);
    assert_eq!((d.unix(), d.nanosecond()), (1483228800, 500_000_000));
    let mut e = from_str("2016-12-31T23:59:60.5Z").unwrap();
    e.subtract_seconds(1);
    assert_eq!((e.unix(), e.nanosecond()), (1483228799, 500_000_000));
    let mut f = from_str("2016-12-31T23:59:60.5Z").unwrap();
    f.add_milliseconds(100);
    assert_eq!((f.unix(), f.nanosecond()), (1483228799, 1_600_000_000));
    let mut g = from_str("2016-12-31T23:59:60.5Z").unwrap();
    g.shift(0, 1000);
    assert_eq!((g.unix(), g.nanosecond()), (1483228799, 1_500_000_000));
}

#[test]
fn shift_and_step_take_counts() {
    let mut d = from_str("2023-05-15").unwrap();
    d.shift(3, 86_400_000);
    assert_eq!(d.to_iso(), "2023-05-18T00:00:00.000Z");
    d.shift(-3, 1);
    assert_eq!(d.to_iso(), "2023-05-17T23:59:59.997Z");
    d.step_months(-1, 2);
    assert_eq!(d.to_iso(), "2023-03-17T23:59:59.997Z");
    d.step_months(1, 1);
    assert_eq!(d.to_iso(), "2023-04-17T23:59:59.997Z");
    d.rebuild(2020, 2, 29);
    assert_eq!(d.to_iso(), "2020-02-29T23:59:59.997Z");
    d.rebuild(2021, 2, 29);
    assert_eq!(d.to_iso(), "2020-02-29T23:59:59.997Z");
}

fn leap_model(secs: i64, nanos: i64, ms: i64) -> (i64, i64) {
    let whole = ms / 1000;
    let part = (ms - whole * 1000) * 1_000_000;
    let (base_secs, base_nanos) = if nanos < 1_000_000_000 {
        (secs, nanos)
    } else if whole > 0 || (part > 0 && nanos + part >= 2_000_000_000) {
        (secs, nanos - 1_000_000_000)
    } else if whole < 0 {
        (secs + 1, nanos - 1_000_000_000)
    } else {
        return (secs, nanos + part);
    };
    let total = base_secs as i128 * 1_000_000_000 + base_nanos as i128 + ms as i128 * 1_000_000;
    (total.div_euclid(1_000_000_000) as i64, total.rem_euclid(1_000_000_000) as i64)
}

#[test]
fn sums_inside_leap_seconds_follow_the_rule() {
    let zone = dayjs::TimeZone::TimeZoneNumber(0);
    let starts = [
        (1_483_228_799i64, 1_000_000_000u32),
        (1_483_228_799, 1_500_000_000),
        (1_483_228_799, 1_999_999_999),
        (59, 1_250_000_000),
        (-1, 1_000_000_001),
        (86_399, 1_999_000_000),
        (1_483_228_799, 999_999_999),
    ];
    for (secs, nanos) in starts {
        let mut ms = -3_000;
        while ms <= 3_000 {
            let mut value = dayjs::Dayjs::at(zone.duplicate(), secs, nanos);
            value.add_milliseconds(ms);
            let expected = leap_model(secs, nanos as i64, ms as i64);
            assert_eq!(
                (value.unix(), value.nanosecond() as i64),
                expected,
                "from {} {} by {}",
                secs,
                nanos,
                ms
            );
            ms += 1;
        }
        for days in [-400, -1, 1, 400] {
            let mut value = dayjs::Dayjs::at(zone.duplicate(), secs, nanos);
            value.add_days(days);
            let expected = leap_model(secs, nanos as i64, days as i64 * 86_400_000);
            assert_eq!((value.unix(), value.nanosecond() as i64), expected);
        }
    }
}
