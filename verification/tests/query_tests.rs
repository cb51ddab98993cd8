use dayjs::{from_str, max, min, DiffTime, QueryTime, TimeZone, Unit};

#[test]
fn exact_comparisons() {
    let d1 = from_str("2023-05-15").unwrap();
    let d2 = from_str("2023-05-20").unwrap();
    let same = from_str("2023-05-15T00:00:00Z").unwrap();
    assert!(d1.is_before(&d2));
    assert!(!d2.is_before(&d1));
    assert!(!d1.is_after(&d2));
    assert!(d2.is_after(&d1));
    assert!(d1.is_same(&same));
    assert!(!d1.is_same(&d2));
    assert!(d1.is_same_or_before(&same));
    assert!(d1.is_same_or_before(&d2));
    assert!(!d2.is_same_or_before(&d1));
    assert!(d1.is_same_or_after(&same));
    assert!(d2.is_same_or_after(&d1));
    assert!(!d1.is_same_or_after(&d2));
}

#[test]
fn comparisons_see_the_fraction_of_a_second() {
    let a = from_str("2023-05-15T10:00:00.100Z").unwrap();
    let b = from_str("2023-05-15T10:00:00.200Z").unwrap();
    assert!(a.is_before(&b));
    assert!(b.is_after(&a));
    assert!(!a.is_same(&b));
    assert!(a.is_same_unit(&b, Unit::Second));
    assert!(!a.is_same_unit(&b, Unit::Millisecond));
    assert!(a.is_before_unit(&b, Unit::Millisecond));
    assert!(b.is_after_unit(&a, Unit::Millisecond));
}

#[test]
fn exactly_one_order_holds() {
    let texts = ["2023-05-15", "2023-05-15T00:00:00.001Z", "2023-05-20", "1969-12-31T23:59:59Z"];
    for a in texts {
        for b in texts {
            let x = from_str(a).unwrap();
            let y = from_str(b).unwrap();
            let holds = [x.is_before(&y), x.is_same(&y), x.is_after(&y)];
            assert_eq!(holds.iter().filter(|h| **h).count(), 1);
        }
    }
}

#[test]
fn between_excludes_both_ends() {
    let start = from_str("2023-05-10").unwrap();
    let mid = from_str("2023-05-15").unwrap();
    let end = from_str("2023-05-20").unwrap();
    assert!(mid.is_between(&start, &end));
    assert!(!start.is_between(&mid, &end));
    assert!(!start.is_between(&start, &end));
    assert!(!end.is_between(&start, &end));
    assert!(!mid.is_between(&end, &start));
}

#[test]
fn comparisons_by_unit_at_an_offset() {
    let morning = from_str("2023-05-15T01:00:00Z").unwrap();
    let evening = from_str("2023-05-15T23:00:00Z").unwrap();
    let next = from_str("2023-05-16T00:30:00Z").unwrap();
    assert!(morning.is_same_unit_at(&evening, Unit::Day, 0, 0));
    assert!(!morning.is_before_unit_at(&evening, Unit::Day, 0, 0));
    assert!(morning.is_before_unit_at(&evening, Unit::Hour, 0, 0));
    assert!(evening.is_after_unit_at(&morning, Unit::Hour, 0, 0));
    assert!(evening.is_before_unit_at(&next, Unit::Day, 0, 0));
    assert!(evening.is_same_unit_at(&next, Unit::Day, 7200, 7200));
    assert!(!morning.is_same_unit_at(&evening, Unit::Day, 7200, 7200));
    assert!(morning.is_same_unit_at(&next, Unit::Month, 0, 0));
    assert!(morning.is_same_unit_at(&next, Unit::Week, 0, 0));
    assert!(morning.is_same_unit_at(&next, Unit::Year, 0, 0));
    assert!(evening.is_between_unit_at(&morning, &next, Unit::Hour, 0, 0, 0));
    assert!(!evening.is_between_unit_at(&morning, &next, Unit::Day, 0, 0, 0));
    assert!(!evening.is_between_unit_at(&morning, &next, Unit::Month, 0, 0, 0));
}

#[test]
fn comparisons_by_unit() {
    let a = from_str("2023-05-15T10:15:00Z").unwrap();
    let b = from_str("2023-05-15T10:45:00Z").unwrap();
    let c = from_str("2023-05-15T11:05:00Z").unwrap();
    let far = from_str("2025-08-20T11:05:00Z").unwrap();
    assert!(a.is_same_unit(&b, Unit::Hour));
    assert!(!a.is_before_unit(&b, Unit::Hour));
    assert!(a.is_before_unit(&b, Unit::Minute));
    assert!(c.is_after_unit(&a, Unit::Hour));
    assert!(!b.is_between_unit(&a, &c, Unit::Hour));
    assert!(b.is_between_unit(&a, &c, Unit::Minute));
    assert!(a.is_before_unit(&far, Unit::Year));
    assert!(a.is_before_unit(&far, Unit::Month));
    assert!(a.is_before_unit(&far, Unit::Week));
    assert!(a.is_before_unit(&far, Unit::Day));
    assert!(far.is_after_unit(&a, Unit::Year));
    assert!(!far.is_same_unit(&a, Unit::Year));
    assert!(b.is_between_unit(&a, &far, Unit::Second));
}

#[test]
fn least_and_greatest() {
    let mut early = from_str("2023-05-15").unwrap();
    early.set_timezone(TimeZone::TimeZoneNumber(1));
    let mut late = from_str("2023-05-20").unwrap();
    late.set_timezone(TimeZone::TimeZoneNumber(2));
    assert_eq!(min(&early, &late), early);
    assert_eq!(min(&late, &early), early);
    assert_eq!(max(&early, &late), late);
    assert_eq!(max(&late, &early), late);
    let mut twin = early.clone_dayjs();
    twin.set_timezone(TimeZone::TimeZoneNumber(3));
    assert_eq!(min(&early, &twin), twin);
    assert_eq!(max(&early, &twin), twin);
}

#[test]
fn differences_by_elapsed_time() {
    let d1 = from_str("2023-05-15").unwrap();
    let d2 = from_str("2023-05-20").unwrap();
    assert_eq!(d2.diff_days(&d1), 5);
    assert_eq!(d1.diff_days(&d2), -5);
    assert_eq!(d2.diff(&d1, Unit::Day), 5);
    assert_eq!(d2.diff_weeks(&d1), 0);
    assert_eq!(from_str("2023-05-29").unwrap().diff_weeks(&d1), 2);
    assert_eq!(d1.diff_weeks(&from_str("2023-05-29").unwrap()), -2);
    let t1 = from_str("2023-05-15T10:00:00").unwrap();
    let t2 = from_str("2023-05-15T15:30:00").unwrap();
    assert_eq!(t2.diff_hours(&t1), 5);
    assert_eq!(t1.diff_hours(&t2), -5);
    assert_eq!(t2.diff_minutes(&t1), 330);
    assert_eq!(from_str("2023-05-15T10:30:00").unwrap().diff_minutes(&t1), 30);
    assert_eq!(from_str("2023-05-15T10:00:45").unwrap().diff_seconds(&t1), 45);
    assert_eq!(t2.diff(&t1, Unit::Hour), 5);
    assert_eq!(t2.diff(&t1, Unit::Minute), 330);
    assert_eq!(t2.diff(&t1, Unit::Second), 19_800);
    assert_eq!(t2.diff(&t1, Unit::Millisecond), 19_800_000);
    assert_eq!(t2.diff(&t1, Unit::Week), 0);
}

#[test]
fn differences_are_cut_toward_zero() {
    let a = from_str("2023-05-15T10:00:00").unwrap();
    let b = from_str("2023-05-15T10:01:30").unwrap();
    assert_eq!(b.diff_minutes(&a), 1);
    assert_eq!(a.diff_minutes(&b), -1);
    let c = from_str("2023-05-16T09:59:59").unwrap();
    assert_eq!(c.diff_days(&a), 0);
    assert_eq!(a.diff_days(&c), 0);
    assert_eq!(c.diff_hours(&a), 23);
    assert_eq!(a.diff_hours(&c), -23);
    let x = from_str("2023-05-15T10:00:00.900Z").unwrap();
    let y = from_str("2023-05-15T10:00:01.100Z").unwrap();
    assert_eq!(y.diff_milliseconds(&x), 200);
    assert_eq!(x.diff_milliseconds(&y), -200);
    assert_eq!(y.diff_seconds(&x), 1);
}

#[test]
fn differences_by_calendar_fields() {
    let d1 = from_str("2023-01-15").unwrap();
    let d2 = from_str("2023-05-20").unwrap();
    assert_eq!(d2.diff_months(&d1), 4);
    assert_eq!(d2.diff(&d1, Unit::Month), 4);
    assert_eq!(d1.diff_months(&d2), -4);
    let y1 = from_str("2020-05-15").unwrap();
    let y2 = from_str("2023-05-15").unwrap();
    assert_eq!(y2.diff_years(&y1), 3);
    assert_eq!(y2.diff(&y1, Unit::Year), 3);
    assert_eq!(y2.diff_months(&y1), 36);
    let end = from_str("2022-12-31T23:59:59").unwrap();
    let start = from_str("2023-01-01T00:00:00").unwrap();
    assert_eq!(start.diff_years(&end), 1);
    assert_eq!(start.diff_months(&end), 1);
    assert_eq!(end.diff_months(&start), -1);
    assert_eq!(start.diff_days(&end), 0);
}
