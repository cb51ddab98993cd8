use dayjs::TimeZone;

#[test]
fn test_timezone_from_string() {
    let tz1 = TimeZone::from_string("+08:00".to_string());
    assert_eq!(tz1, TimeZone::TimeZoneTime("+08:00".to_string()));

    let tz2 = TimeZone::from_string("9".to_string());
    assert_eq!(tz2, TimeZone::TimeZoneNumber(9));

    let tz3 = TimeZone::from_string("Asia/Shanghai".to_string());
    assert_eq!(tz3, TimeZone::TimeZoneCity("Asia/Shanghai".to_string()));
}
