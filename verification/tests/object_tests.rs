use dayjs::{dayjs, Dayjs, DisplayTime, TimeZone};
use serde_json::Value;

fn object(members: &[(&str, &str)]) -> Value {
    let mut map = serde_json::Map::new();
    for (key, text) in members {
        map.insert(key.to_string(), Value::String(text.to_string()));
    }
    Value::Object(map)
}

#[test]
fn test_from_object_and_to_object() {
    let d1 = dayjs();
    let obj = d1.to_object();
    let d2 = Dayjs::from_object(obj).unwrap();

    assert_eq!(d1.unix(), d2.unix());
    assert_eq!(d1.nanosecond(), d2.nanosecond());
    assert_eq!(d1.get_timezone(), d2.get_timezone());
}

#[test]
fn test_from_object_with_offset_timezone() {
    let obj = object(&[("tz", "+08:00"), ("time", "2025-12-21T14:30:00Z")]);

    let d = Dayjs::from_object(obj).unwrap();
    assert_eq!(d.to_string(), "2025-12-21T14:30:00.000000Z");

    let local = d.to_local();
    assert!(local.contains("22:30:00"));
    assert!(local.contains("+08:00"));
}

#[test]
fn test_from_object_with_number_timezone() {
    let obj = object(&[("tz", "9"), ("time", "2025-12-21T14:30:00Z")]);

    let d = Dayjs::from_object(obj).unwrap();
    let local = d.to_local();
    assert!(local.contains("23:30:00"));
    assert!(local.contains("+09:00"));
}

#[test]
fn test_from_object_missing_field() {
    let obj = object(&[("tz", "+08:00")]);

    let result = Dayjs::from_object(obj);
    assert!(result.is_err());
    assert!(result.unwrap_err().contains("time"));
}

#[test]
fn test_from_object_invalid_time() {
    let obj = object(&[("tz", "+08:00"), ("time", "invalid-time-format")]);

    let result = Dayjs::from_object(obj);
    assert!(result.is_err());
}

#[test]
fn test_object() {
    let d1 = dayjs();
    let obj1 = d1.to_object();
    println!("  to_object: {}", obj1);
    let d1_restored = Dayjs::from_object(obj1).unwrap();
    assert_eq!(d1_restored.to_string(), d1.to_string());

    let d2 = Dayjs::from_object(object(&[("tz", "+08:00"), ("time", "2025-12-21T14:30:00Z")]))
        .unwrap();
    assert_eq!(d2.to_string(), "2025-12-21T14:30:00.000000Z");
    assert_eq!(d2.to_local(), "2025-12-21T22:30:00.000000+08:00");

    let d3 =
        Dayjs::from_object(object(&[("tz", "9"), ("time", "2025-12-21T14:30:00Z")])).unwrap();
    assert_eq!(d3.to_string(), "2025-12-21T14:30:00.000000Z");
    assert_eq!(d3.to_local(), "2025-12-21T23:30:00.000000+09:00");

    let d4 = Dayjs::from_object(object(&[
        ("tz", "Asia/Shanghai"),
        ("time", "2025-12-21T14:30:00.123456Z"),
    ]))
    .unwrap();
    assert_eq!(d4.to_string(), "2025-12-21T14:30:00.123456Z");
    assert_eq!(d4.get_timezone(), &TimeZone::TimeZoneCity("Asia/Shanghai".to_string()));

    match Dayjs::from_object(object(&[("tz", "+08:00")])) {
        Ok(_) => panic!("an object without a time was accepted"),
        Err(e) => assert_eq!(e, "Missing or invalid 'time' field"),
    }

    match Dayjs::from_object(object(&[("tz", "+08:00"), ("time", "invalid-time")])) {
        Ok(_) => panic!("a time that cannot be read was accepted"),
        Err(e) => assert_eq!(e, "Failed to parse time: invalid-time"),
    }
}

#[test]
fn object_without_zone_is_refused() {
    let result = Dayjs::from_object(object(&[("time", "2025-12-21T14:30:00Z")]));
    assert_eq!(result.unwrap_err(), "Missing or invalid 'tz' field");
    let result = Dayjs::from_object(Value::Null);
    assert_eq!(result.unwrap_err(), "Missing or invalid 'tz' field");
}

#[test]
fn object_members_of_a_value() {
    let mut d = dayjs::from_str("2025-12-21T14:30:00.5Z").unwrap();
    d.set_timezone(TimeZone::TimeZoneNumber(-5));
    let members = d.to_object_members();
    assert_eq!(members.0, "-5");
    assert_eq!(members.1, "2025-12-21T14:30:00.500+00:00");
    let obj = d.to_object();
    assert_eq!(obj.get("tz").and_then(|v| v.as_str()), Some("-5"));
    assert_eq!(obj.get("time").and_then(|v| v.as_str()), Some("2025-12-21T14:30:00.500+00:00"));
    assert_eq!(obj.as_object().map(|members| members.len()), Some(2));
}

#[test]
fn object_time_in_a_plain_shape() {
    let made = Dayjs::from_object_members(
        Some(" +02:00 ".to_string()),
        Some("2023-05-15 10:30:45".to_string()),
    )
    .unwrap();
    assert_eq!(made.unix(), 1684146645);
    assert_eq!(made.get_timezone(), &TimeZone::TimeZoneTime("+02:00".to_string()));
}

#[test]
fn object_members_that_are_no_text_are_missing() {
    let mut map = serde_json::Map::new();
    map.insert("tz".to_string(), Value::from(8));
    map.insert("time".to_string(), Value::String("2025-12-21T14:30:00Z".to_string()));
    let result = Dayjs::from_object(Value::Object(map));
    assert_eq!(result.unwrap_err(), "Missing or invalid 'tz' field");
    let mut map = serde_json::Map::new();
    map.insert("tz".to_string(), Value::String("8".to_string()));
    map.insert("time".to_string(), Value::Null);
    let result = Dayjs::from_object(Value::Object(map));
    assert_eq!(result.unwrap_err(), "Missing or invalid 'time' field");
}

#[test]
fn an_object_of_a_value_reads_back_as_the_value() {
    let mut d = dayjs::from_str("2016-12-31T23:59:60.25Z").unwrap();
    d.set_timezone(TimeZone::TimeZoneCity("Asia/Shanghai".to_string()));
    let back = Dayjs::from_object(d.to_object()).unwrap();
    assert_eq!(back, d);
}
