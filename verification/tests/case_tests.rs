use dayjs::{dayjs, from_int64, from_str, Dayjs, DiffTime, DisplayTime, OperationTime, QueryTime};
use dayjs::{Unit, Weekday};
use serde_json::Value;

fn entry(pairs: Vec<(&str, Value)>) -> Value {
    let mut map = serde_json::Map::new();
    for (key, value) in pairs {
        map.insert(key.to_string(), value);
    }
    Value::Object(map)
}

fn at_some_offset(expected: &Dayjs, cut: impl Fn(i32) -> Dayjs) -> bool {
    let mut offset = -16 * 3600;
    while offset <= 16 * 3600 {
        if cut(offset).is_same(expected) {
            return true;
        }
        offset += 900;
    }
    false
}

fn parse_results() -> Value {
    let now = dayjs();
    let iso = from_str("2023-05-15T10:30:45Z").unwrap();
    let date_only = from_str("2023-05-15").unwrap();
    let millis = from_int64(1684147845000).unwrap();
    let seconds = from_int64(1684147845).unwrap();
    entry(vec![
        (
            "now",
            entry(vec![
                ("isValid", Value::from(now.is_valid())),
                ("hasTime", Value::from(now.unix() > 0)),
            ]),
        ),
        (
            "string_iso",
            entry(vec![
                ("year", Value::from(iso.year())),
                ("month", Value::from(iso.month())),
                ("date", Value::from(iso.date())),
                ("hour", Value::from(iso.hour())),
                ("minute", Value::from(iso.minute())),
                ("second", Value::from(iso.second())),
                ("iso", Value::from(iso.to_iso())),
            ]),
        ),
        (
            "string_date_only",
            entry(vec![
                ("year", Value::from(date_only.year())),
                ("month", Value::from(date_only.month())),
                ("date", Value::from(date_only.date())),
            ]),
        ),
        (
            "unix_milliseconds",
            entry(vec![
                ("year", Value::from(millis.year())),
                ("month", Value::from(millis.month())),
                ("date", Value::from(millis.date())),
                ("unix", Value::from(millis.unix())),
                ("valueOf", Value::from(millis.value_of())),
            ]),
        ),
        (
            "unix_seconds",
            entry(vec![
                ("year", Value::from(seconds.year())),
                ("month", Value::from(seconds.month())),
                ("date", Value::from(seconds.date())),
                ("unix", Value::from(seconds.unix())),
            ]),
        ),
    ])
}

#[test]
fn run_all_tests() {
    let parse = parse_results();
    assert_eq!(
        parse.to_string(),
        concat_all(&[
            "{\"now\":{\"hasTime\":true,\"isValid\":true},",
            "\"string_date_only\":{\"date\":15,\"month\":4,\"year\":2023},",
            "\"string_iso\":{\"date\":15,\"hour\":10,\"iso\":\"2023-05-15T10:30:45.000Z\",",
            "\"minute\":30,\"month\":4,\"second\":45,\"year\":2023},",
            "\"unix_milliseconds\":{\"date\":15,\"month\":4,\"unix\":1684147845,",
            "\"valueOf\":1684147845000,\"year\":2023},",
            "\"unix_seconds\":{\"date\":15,\"month\":4,\"unix\":1684147845,\"year\":2023}}",
        ])
    );

    let d = from_str("2023-05-15").unwrap();
    assert_eq!((d.year(), d.month(), d.date()), (2023, 4, 15));
    assert_eq!(d.day(), Weekday::Mon);
    assert_eq!(d.day().num_days_from_sunday(), 1);
    let t = from_str("2023-05-15T10:30:45").unwrap();
    assert_eq!((t.hour(), t.minute(), t.second(), t.millisecond()), (10, 30, 45, 0));

    let mut plus_week = d.clone_dayjs();
    plus_week.add_days(7);
    assert_eq!((plus_week.year(), plus_week.month(), plus_week.date()), (2023, 4, 22));
    assert_eq!(plus_week.to_iso(), "2023-05-22T00:00:00.000Z");
    let mut plus_months = d.clone_dayjs();
    plus_months.add_months(2);
    assert_eq!((plus_months.year(), plus_months.month(), plus_months.date()), (2023, 6, 15));
    let mut plus_year = d.clone_dayjs();
    plus_year.add_years(1);
    assert_eq!((plus_year.year(), plus_year.month(), plus_year.date()), (2024, 4, 14));
    let mut minus_week = d.clone_dayjs();
    minus_week.subtract_days(7);
    assert_eq!((minus_week.year(), minus_week.month(), minus_week.date()), (2023, 4, 8));

    let names = [("day", Unit::Day), ("month", Unit::Month), ("year", Unit::Year)];
    for (name, unit) in names {
        let start = t.start_of(name);
        assert!(at_some_offset(&start, |offset| t.start_of_at(unit, offset)));
        assert_eq!((start.second(), start.millisecond()), (0, 0));
        let end = t.end_of(name);
        assert!(at_some_offset(&end, |offset| t.end_of_at(unit, offset)));
        assert_eq!((end.second(), end.millisecond()), (59, 999));
    }
    let month_end = from_str("2023-05-31").unwrap().end_of_at(Unit::Month, 0);
    assert_eq!((month_end.date(), month_end.hour(), month_end.minute()), (31, 23, 59));
    let month_start = d.start_of_at(Unit::Month, 0);
    assert_eq!((month_start.date(), month_start.hour(), month_start.minute()), (1, 0, 0));
    let year_start = d.start_of_at(Unit::Year, 0);
    assert_eq!((year_start.month(), year_start.date()), (0, 1));
    let year_end = d.end_of_at(Unit::Year, 0);
    assert_eq!((year_end.month(), year_end.date()), (11, 31));
    let day_start = t.start_of_at(Unit::Day, 0);
    assert_eq!(day_start.to_iso(), "2023-05-15T00:00:00.000Z");
    let day_end = t.end_of_at(Unit::Day, 0);
    assert_eq!(day_end.to_iso(), "2023-05-15T23:59:59.999Z");

    assert_eq!(t.to_iso(), "2023-05-15T10:30:45.000Z");
    assert_eq!(t.to_string(), "2023-05-15T10:30:45.000000Z");
    assert_eq!(t.format("%Y-%m-%d"), "2023-05-15");
    assert_eq!(t.format("%Y/%m/%d"), "2023/05/15");
    assert_eq!(t.format("%Y-%m-%d %H:%M:%S"), "2023-05-15 10:30:45");
    assert_eq!(t.format("%d/%m/%Y"), "15/05/2023");
    assert_eq!(from_str("2023-05-15T10:30:45.123Z").unwrap().to_iso(), "2023-05-15T10:30:45.123Z");
    let z = from_str("2023-05-15T10:30:45Z").unwrap();
    assert_eq!(z.to_iso(), "2023-05-15T10:30:45.000Z");
    assert_eq!((z.unix(), z.value_of()), (1684146645, 1684146645000));

    let d10 = from_str("2023-05-10").unwrap();
    let d15 = from_str("2023-05-15").unwrap();
    let d16 = from_str("2023-05-16").unwrap();
    let d20 = from_str("2023-05-20").unwrap();
    assert!(d15.is_before(&d20) && !d20.is_before(&d15));
    assert!(!d15.is_after(&d20) && d20.is_after(&d15));
    assert!(d15.is_same(&d) && !d15.is_same(&d16));
    assert!(d15.is_same_or_before(&d) && d15.is_same_or_before(&d20));
    assert!(d15.is_same_or_after(&d) && d15.is_same_or_after(&d10));
    assert!(d15.is_between(&d10, &d20) && !d10.is_between(&d15, &d20));

    assert_eq!((d20.diff_days(&d15), d15.diff_days(&d20)), (5, -5));
    assert_eq!(d20.diff_months(&from_str("2023-01-15").unwrap()), 4);
    assert_eq!(d15.diff_years(&from_str("2020-05-15").unwrap()), 3);
    let ten = from_str("2023-05-15T10:00:00").unwrap();
    assert_eq!(from_str("2023-05-15T15:30:00").unwrap().diff_hours(&ten), 5);
    assert_eq!(from_str("2023-05-15T10:30:00").unwrap().diff_minutes(&ten), 30);
    assert_eq!(from_str("2023-05-15T10:00:45").unwrap().diff_seconds(&ten), 45);

    assert_eq!(from_str("2023-01-15").unwrap().days_in_month(), 31);
    assert_eq!(from_str("2023-02-15").unwrap().days_in_month(), 28);
    assert_eq!(from_str("2024-02-15").unwrap().days_in_month(), 29);
    assert_eq!(from_str("2023-03-15").unwrap().days_in_month(), 31);
    assert_eq!(from_str("2023-04-15").unwrap().days_in_month(), 30);
    assert!(!from_str("2023-01-01").unwrap().is_leap_year());
    assert!(from_str("2024-01-01").unwrap().is_leap_year());
    assert!(from_str("2000-01-01").unwrap().is_leap_year());
    assert!(!from_str("1900-01-01").unwrap().is_leap_year());
    let copy = d.clone_dayjs();
    assert!(d.is_same(&copy));
    assert_eq!(copy.year(), 2023);
}

fn concat_all(parts: &[&str]) -> String {
    let mut text = String::new();
    for part in parts {
        text.push_str(part);
    }
    text
}
