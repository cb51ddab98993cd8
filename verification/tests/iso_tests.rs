use dayjs::{DisplayTime, TimeZone};

#[test]
fn test_ios() {
    let now = dayjs::now();
    println!("{:?}", now.to_string());
    let end = now.end_of("day").to_iso();
    println!("{end}");
    assert_eq!(end.len(), 24);
    assert!(end.ends_with("Z"));
}

#[test]
fn test_timezone() {
    let tz = TimeZone::current();
    println!("{:?}", tz);
    match &tz {
        TimeZone::TimeZoneTime(text) => assert!(text.starts_with('+') || text.starts_with('-')),
        other => panic!("the present zone is not an offset: {:?}", other),
    }

    let now = chrono::Utc::now();
    println!("{:?}", now);
}

#[test]
fn test_format() {
    let now = dayjs::now();
    let default = now.to_string();
    let utc = now.to_utc();
    let gmt = now.to_gmt();
    let iso = now.to_iso();
    println!("to_string(): {default}");
    println!("to_utc(): {utc}");
    println!("to_gmt(): {gmt}");
    println!("to_iso(): {iso}");
    assert_eq!(default, utc);
    assert!(gmt.ends_with(" GMT"));
    assert_eq!(&default[..19], &iso[..19]);
}
