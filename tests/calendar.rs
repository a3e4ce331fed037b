use rtodo::{DateTime, Duration, TimeZone};

fn at(y: i32, mo: u32, d: u32, h: u32, mi: u32, s: u32) -> DateTime {
    DateTime::from_ymd_hms_utc(y, mo, d, h, mi, s).unwrap()
}

#[test]
fn timestamp_of_known_instants() {
    assert_eq!(at(1970, 1, 1, 0, 0, 0).timestamp, 0);
    assert_eq!(at(2024, 1, 1, 0, 0, 0).timestamp, 1704067200);
    assert_eq!(at(2024, 1, 1, 0, 0, 0).time_zone, TimeZone::Utc);
    assert_eq!(at(2024, 1, 1, 0, 0, 0).timestamp(), Some(1704067200));
}

#[test]
fn invalid_fields_give_no_point() {
    assert!(DateTime::from_ymd_hms_utc(2023, 2, 29, 0, 0, 0).is_none());
    assert!(DateTime::from_ymd_hms_utc(2024, 2, 29, 0, 0, 0).is_some());
    assert!(DateTime::from_ymd_hms_utc(2024, 13, 1, 0, 0, 0).is_none());
    assert!(DateTime::from_ymd_hms_utc(2024, 1, 1, 24, 0, 0).is_none());
    assert!(DateTime::from_ymd_hms_utc(2024, 1, 0, 0, 0, 0).is_none());
    assert!(DateTime::from_ymd_hms_utc(300000, 1, 1, 0, 0, 0).is_none());
    assert!(DateTime::from_ymd_hms(2023, 2, 29, 0, 0, 0).is_none());
    assert!(DateTime::from_ymd_hms(2024, 13, 1, 0, 0, 0).is_none());
}

#[test]
fn user_fields_are_local_time() {
    let p = DateTime::from_ymd_hms(2024, 3, 5, 9, 0, 0).unwrap();
    assert_eq!((p.year, p.month, p.day, p.hour, p.min, p.sec), (2024, 3, 5, 9, 0, 0));
    assert_eq!(p.time_zone, TimeZone::Local);
    let utc = at(2024, 3, 5, 9, 0, 0).timestamp;
    assert!(p.timestamp > utc - 86400 && p.timestamp < utc + 86400);
    assert_eq!(p.timestamp(), Some(p.timestamp));
}

#[test]
fn local_points_keep_their_offset_when_added_to() {
    let p = DateTime::from_ymd_hms(2024, 3, 5, 9, 0, 0).unwrap();
    let q = p.add(Duration::new(0, 0, 0, 0, 0, 5)).unwrap();
    assert_eq!(q.time_zone, TimeZone::Local);
    assert_eq!((q.hour, q.min, q.sec), (9, 0, 5));
    assert_eq!(q.timestamp, p.timestamp + 5);
}

#[test]
fn add_carries_seconds_into_the_next_year() {
    let p = at(2023, 12, 31, 23, 59, 59).add(Duration::new(0, 0, 0, 0, 0, 1)).unwrap();
    assert_eq!(p, at(2024, 1, 1, 0, 0, 0));
}

#[test]
fn add_overflowing_day_rolls_into_next_month() {
    assert_eq!(at(2023, 1, 31, 0, 0, 0).add(Duration::new(0, 1, 0, 0, 0, 0)).unwrap(), at(2023, 3, 3, 0, 0, 0));
    assert_eq!(at(2024, 1, 31, 0, 0, 0).add(Duration::new(0, 1, 0, 0, 0, 0)).unwrap(), at(2024, 3, 2, 0, 0, 0));
}

#[test]
fn add_months_carry_into_years() {
    let p = at(2024, 11, 15, 8, 30, 0).add(Duration::new(1, 14, 0, 0, 0, 0)).unwrap();
    assert_eq!(p, at(2027, 1, 15, 8, 30, 0));
}

#[test]
fn add_large_day_counts() {
    let p = at(2024, 1, 1, 0, 0, 0).add(Duration::new(0, 0, 366, 0, 0, 0)).unwrap();
    assert_eq!(p, at(2025, 1, 1, 0, 0, 0));
    let q = at(2024, 1, 1, 0, 0, 0).add(Duration::new(0, 0, 0, 48, 120, 3600)).unwrap();
    assert_eq!(q, at(2024, 1, 3, 3, 0, 0));
}

#[test]
fn add_fails_beyond_supported_years() {
    assert!(at(262142, 12, 31, 0, 0, 0).add(Duration::one_day()).is_none());
    assert!(at(2024, 1, 1, 0, 0, 0).add(Duration::new(300000, 0, 0, 0, 0, 0)).is_none());
    assert!(at(2024, 1, 1, 0, 0, 0).add(Duration::new(0, 0, u32::MAX, 0, 0, 0)).is_none());
}

#[test]
fn add_refuses_an_invalid_point() {
    let p = DateTime { year: 2024, month: 3, day: 0, hour: 0, min: 0, sec: 0, timestamp: 0, time_zone: TimeZone::Utc };
    assert!(p.add(Duration::new(0, 0, 1, 0, 0, 0)).is_none());
}

#[test]
fn add_carries_a_day_at_month_end() {
    let p = at(2024, 2, 28, 12, 0, 0).add(Duration::new(0, 0, 2, 0, 0, 0)).unwrap();
    assert_eq!(p, at(2024, 3, 1, 12, 0, 0));
    assert_eq!(p.timestamp, at(2024, 2, 28, 12, 0, 0).timestamp + 2 * 86400);
}

#[test]
fn is_up_at_compares_with_now() {
    let p = at(2024, 1, 1, 0, 0, 0);
    assert!(p.is_up_at(p.timestamp));
    assert!(p.is_up_at(p.timestamp + 1));
    assert!(!p.is_up_at(p.timestamp - 1));
}

#[test]
fn is_up_against_the_clock() {
    assert!(at(2000, 1, 1, 0, 0, 0).is_up());
    assert!(!at(200000, 1, 1, 0, 0, 0).is_up());
}

#[test]
fn now_is_a_valid_recent_point() {
    let n = DateTime::now().unwrap();
    assert!(n.year >= 2024);
    assert_eq!(n.timestamp(), Some(n.timestamp));
    assert_eq!(n.time_zone, TimeZone::Utc);
    let later = DateTime::one_day().unwrap();
    assert!(later.timestamp >= n.timestamp + 86400);
    let soon = DateTime::from_duration(&Duration::new(0, 0, 0, 0, 0, 5)).unwrap();
    assert!(soon.timestamp >= n.timestamp + 5);
}

#[test]
fn duration_seconds_of_fixed_part() {
    assert_eq!(Duration::one_day().total_sec, 86400);
    assert_eq!(Duration::new(1, 2, 1, 1, 1, 1).total_sec, 90061);
}
