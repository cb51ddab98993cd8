use dayjs::{from_array, from_datetime, from_naive, from_str, from_timezone, from_ymd, from_ymdhms};
use dayjs::{timestamp, Dayjs, DisplayTime, QueryTime, TimeZone, Weekday};

#[test]
fn reads_the_calendar_fields() {
    let d = from_str("2023-05-15T10:30:45.123Z").unwrap();
    assert_eq!(d.year(), 2023);
    assert_eq!(d.month(), 4);
    assert_eq!(d.month_of_year(), 5);
    assert_eq!(d.date(), 15);
    assert_eq!(d.day(), Weekday::Mon);
    assert_eq!(d.day().num_days_from_sunday(), 1);
    assert_eq!(d.day().num_days_from_monday(), 0);
    assert_eq!(d.day_of_year(), 135);
    assert_eq!(d.week_of_year(), 20);
    assert_eq!(d.hour(), 10);
    assert_eq!(d.minute(), 30);
    assert_eq!(d.second(), 45);
    assert_eq!(d.second_of_day(), 37845);
    assert_eq!(d.millisecond(), 123);
    assert_eq!(d.nanosecond(), 123_000_000);
    assert_eq!(d.unix(), 1684146645);
    assert_eq!(d.timestamp(), 1684146645);
    assert_eq!(d.get_timestamp(), 1684146645);
    assert_eq!(d.to_timestamp(), 1684146645);
    assert_eq!(d.value_of(), 1684146645123);
    assert!(d.is_valid());
}

#[test]
fn reads_fields_before_the_epoch() {
    let d = from_str("1969-12-31T23:59:59Z").unwrap();
    assert_eq!(d.unix(), -1);
    assert_eq!((d.year(), d.month_of_year(), d.date()), (1969, 12, 31));
    assert_eq!((d.hour(), d.minute(), d.second()), (23, 59, 59));
    assert_eq!(d.day(), Weekday::Wed);
    assert_eq!(d.day_of_year(), 365);
    assert_eq!(d.value_of(), -1000);
    assert_eq!(from_str("1970-01-01").unwrap().day(), Weekday::Thu);
}

#[test]
fn weeks_belong_to_the_year_of_their_thursday() {
    assert_eq!(from_str("2021-01-03").unwrap().week_of_year(), 53);
    assert_eq!(from_str("2020-12-31").unwrap().week_of_year(), 53);
    assert_eq!(from_str("2024-12-30").unwrap().week_of_year(), 1);
    assert_eq!(from_str("2023-01-01").unwrap().week_of_year(), 52);
    assert_eq!(from_str("2023-01-02").unwrap().week_of_year(), 1);
}

#[test]
fn weekdays_count_from_sunday() {
    let days = [
        ("2023-05-14", Weekday::Sun, 0),
        ("2023-05-15", Weekday::Mon, 1),
        ("2023-05-16", Weekday::Tue, 2),
        ("2023-05-17", Weekday::Wed, 3),
        ("2023-05-18", Weekday::Thu, 4),
        ("2023-05-19", Weekday::Fri, 5),
        ("2023-05-20", Weekday::Sat, 6),
    ];
    for (text, day, index) in days {
        let d = from_str(text).unwrap();
        assert_eq!(d.day(), day);
        assert_eq!(d.day().num_days_from_sunday(), index);
        assert_eq!(d.day().num_days_from_monday(), (index + 6) % 7);
    }
}

#[test]
fn leap_years_follow_the_gregorian_rule() {
    assert!(from_str("2000-01-01").unwrap().is_leap_year());
    assert!(!from_str("1900-01-01").unwrap().is_leap_year());
    assert!(from_str("2024-01-01").unwrap().is_leap_year());
    assert!(!from_str("2023-01-01").unwrap().is_leap_year());
    assert!(dayjs::value::leap_year(-4));
    assert!(!dayjs::value::leap_year(-100));
    assert!(dayjs::value::leap_year(-400));
}

#[test]
fn months_have_their_true_lengths() {
    assert_eq!(from_str("2023-01-15").unwrap().days_in_month(), 31);
    assert_eq!(from_str("2023-02-15").unwrap().days_in_month(), 28);
    assert_eq!(from_str("2024-02-15").unwrap().days_in_month(), 29);
    assert_eq!(from_str("2023-03-15").unwrap().days_in_month(), 31);
    assert_eq!(from_str("2023-04-15").unwrap().days_in_month(), 30);
    assert_eq!(from_str("2023-12-15").unwrap().days_in_month(), 31);
    assert_eq!(from_str("1900-02-01").unwrap().days_in_month(), 28);
    assert_eq!(from_str("2000-02-01").unwrap().days_in_month(), 29);
    assert_eq!(dayjs::mutate::last_day_of_month(262_142, 12), 31);
    assert_eq!(dayjs::mutate::last_day_of_month(-262_143, 1), 31);
}

#[test]
fn setters_replace_one_field() {
    let mut d = from_str("2023-05-15T10:30:45.123Z").unwrap();
    d.set_year(2024);
    assert_eq!(d.to_iso(), "2024-05-15T10:30:45.123Z");
    d.set_month(2);
    assert_eq!(d.to_iso(), "2024-02-15T10:30:45.123Z");
    d.set_date(29);
    assert_eq!(d.to_iso(), "2024-02-29T10:30:45.123Z");
    d.set_hour(5);
    assert_eq!(d.to_iso(), "2024-02-29T05:30:45.123Z");
    d.set_minute(59);
    assert_eq!(d.to_iso(), "2024-02-29T05:59:45.123Z");
    d.set_second(0);
    assert_eq!(d.to_iso(), "2024-02-29T05:59:00.123Z");
    d.set_millisecond(250);
    assert_eq!(d.to_iso(), "2024-02-29T05:59:00.250Z");
    assert_eq!(d.nanosecond(), 250_000_000);
}

#[test]
fn setters_leave_the_value_where_the_date_is_impossible() {
    let mut d = from_str("2024-02-29T10:30:45.123Z").unwrap();
    let before = d.clone_dayjs();
    d.set_year(2023);
    assert!(d.is_same(&before));
    d.set_month(13);
    assert!(d.is_same(&before));
    d.set_month(0);
    assert!(d.is_same(&before));
    d.set_date(30);
    assert!(d.is_same(&before));
    d.set_date(0);
    assert!(d.is_same(&before));
    d.set_hour(24);
    assert!(d.is_same(&before));
    d.set_minute(60);
    assert!(d.is_same(&before));
    d.set_second(60);
    assert!(d.is_same(&before));
    d.set_millisecond(2000);
    assert!(d.is_same(&before));
    d.set_millisecond(u32::MAX);
    assert!(d.is_same(&before));
    d.set_year(400_000);
    assert!(d.is_same(&before));

    let mut january = from_str("2023-01-31").unwrap();
    january.set_month(2);
    assert_eq!(january.to_iso(), "2023-01-31T00:00:00.000Z");
    january.set_month(4);
    assert_eq!(january.to_iso(), "2023-01-31T00:00:00.000Z");
    january.set_month(3);
    assert_eq!(january.to_iso(), "2023-03-31T00:00:00.000Z");
}

#[test]
fn setting_the_zone_keeps_the_instant() {
    let mut d = from_str("2023-05-15T10:30:45Z").unwrap();
    d.set_timezone(TimeZone::TimeZoneCity("Asia/Shanghai".to_string()));
    assert_eq!(d.unix(), 1684146645);
    assert_eq!(d.get_timezone(), &TimeZone::TimeZoneCity("Asia/Shanghai".to_string()));
    let copy = d.clone_dayjs();
    assert_eq!(copy, d);
    assert_eq!(copy.year(), 2023);
}

#[test]
fn makes_values_from_fields() {
    assert_eq!(from_ymd(2023, 5, 15).unwrap().unix(), 1684108800);
    assert_eq!(from_ymd(2024, 2, 29).unwrap().to_iso(), "2024-02-29T00:00:00.000Z");
    assert_eq!(from_ymd(2023, 2, 29).unwrap_err(), "Invalid date: 2023-2-29");
    assert_eq!(from_ymd(2023, 13, 1).unwrap_err(), "Invalid date: 2023-13-1");
    assert_eq!(from_ymd(2023, 0, 1).unwrap_err(), "Invalid date: 2023-0-1");
    assert_eq!(from_ymd(-400_000, 1, 1).unwrap_err(), "Invalid date: -400000-1-1");
    assert_eq!(from_ymdhms(2023, 5, 15, 10, 30, 45).unwrap().unix(), 1684146645);
    assert_eq!(from_ymdhms(2023, 5, 15, 24, 0, 0).unwrap_err(), "Invalid time");
    assert_eq!(from_ymdhms(2023, 5, 15, 0, 60, 0).unwrap_err(), "Invalid time");
    assert_eq!(from_ymdhms(2023, 5, 15, 0, 0, 60).unwrap_err(), "Invalid time");
    assert_eq!(from_ymdhms(2023, 4, 31, 0, 0, 0).unwrap_err(), "Invalid date: 2023-4-31");
}

#[test]
fn makes_values_from_arrays() {
    let d = from_array(&[2023, 4, 15, 10, 30, 45, 123]).unwrap();
    assert_eq!(d.to_iso(), "2023-05-15T10:30:45.123Z");
    assert_eq!(from_array(&[2023]).unwrap().to_iso(), "2023-01-01T00:00:00.000Z");
    assert_eq!(from_array(&[2023, 11]).unwrap().to_iso(), "2023-12-01T00:00:00.000Z");
    assert_eq!(from_array(&[2023, 1, 28, 23]).unwrap().to_iso(), "2023-02-28T23:00:00.000Z");
    assert_eq!(from_array(&[]).unwrap_err(), "Array is empty");
    assert_eq!(from_array(&[2023, 12, 1]).unwrap_err(), "Invalid date: 2023-13-1");
    assert_eq!(from_array(&[2023, -1, 1]).unwrap_err(), "Invalid date: 2023-0-1");
    assert_eq!(from_array(&[2023, 1, 29]).unwrap_err(), "Invalid date: 2023-2-29");
    assert_eq!(from_array(&[2023, 1, -3]).unwrap_err(), "Invalid date: 2023-2--3");
    assert_eq!(from_array(&[2023, 0, 1, 24]).unwrap_err(), "Invalid time");
    assert_eq!(from_array(&[2023, 0, 1, 0, 0, 0, -1]).unwrap_err(), "Invalid time");
    assert_eq!(from_array(&[2023, 0, 1, 0, 0, 0, 1000]).unwrap_err(), "Invalid time");
    let leap = from_array(&[2016, 11, 31, 23, 59, 59, 1500]).unwrap();
    assert_eq!(leap.nanosecond(), 1_500_000_000);
    assert_eq!(from_array(&[2023, i32::MAX, 1]).unwrap_err(), "Invalid date: 2023-2147483648-1");
}

#[test]
fn makes_values_from_instants_and_the_clock() {
    let d = from_datetime(1684146645, 5);
    assert_eq!((d.unix(), d.nanosecond()), (1684146645, 5));
    let n = from_naive(-1, 999_999_999);
    assert_eq!((n.unix(), n.nanosecond()), (-1, 999_999_999));
    let z = from_timezone(TimeZone::TimeZoneNumber(8));
    assert_eq!(z.get_timezone(), &TimeZone::TimeZoneNumber(8));
    let before = timestamp();
    let now = dayjs::dayjs();
    let after = timestamp();
    assert!(before <= now.unix() && now.unix() <= after);
    assert!(now.unix() > 1_600_000_000);
    let other = Dayjs::default();
    assert!(other.unix() >= now.unix());
    assert!(matches!(other.get_timezone(), TimeZone::TimeZoneTime(_)));
    let made = Dayjs::at(TimeZone::TimeZoneNumber(1), 0, 0);
    assert_eq!(made.to_iso(), "1970-01-01T00:00:00.000Z");
}
