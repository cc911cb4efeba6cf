use reservation::time::{MAX_UTC_SECONDS, MIN_UTC_SECONDS};
use reservation::{convert_to_timestamp, convert_to_utc_time, Timestamp, UtcDateTime};

fn seconds_now() -> i64 {
    chrono::Utc::now().timestamp()
}

fn is_clock_reading(t: UtcDateTime) -> bool {
    let now = seconds_now();
    now - 60 <= t.seconds && t.seconds <= now + 60 && t.nanos < 2_000_000_000
}

#[test]
fn representable_timestamp_converts_to_itself() {
    let t = convert_to_utc_time(Timestamp { seconds: 1, nanos: 0 });
    assert_eq!(t, UtcDateTime { seconds: 1, nanos: 0 });
    let t = convert_to_utc_time(Timestamp { seconds: 1_747_173_600, nanos: 999_999_999 });
    assert_eq!(t, UtcDateTime { seconds: 1_747_173_600, nanos: 999_999_999 });
    let t = convert_to_utc_time(Timestamp { seconds: -86_401, nanos: 5 });
    assert_eq!(t, UtcDateTime { seconds: -86_401, nanos: 5 });
}

#[test]
fn first_and_last_representable_second_convert_to_themselves() {
    let first = convert_to_utc_time(Timestamp { seconds: MIN_UTC_SECONDS, nanos: 0 });
    assert_eq!(first, UtcDateTime { seconds: MIN_UTC_SECONDS, nanos: 0 });
    let last = convert_to_utc_time(Timestamp { seconds: MAX_UTC_SECONDS, nanos: 999_999_999 });
    assert_eq!(last, UtcDateTime { seconds: MAX_UTC_SECONDS, nanos: 999_999_999 });
    assert_eq!(MIN_UTC_SECONDS, chrono::DateTime::<chrono::Utc>::MIN_UTC.timestamp());
    assert_eq!(MAX_UTC_SECONDS, chrono::DateTime::<chrono::Utc>::MAX_UTC.timestamp());
}

#[test]
fn seconds_out_of_range_fall_back_to_the_clock() {
    assert!(is_clock_reading(convert_to_utc_time(Timestamp { seconds: MAX_UTC_SECONDS + 1, nanos: 0 })));
    assert!(is_clock_reading(convert_to_utc_time(Timestamp { seconds: MIN_UTC_SECONDS - 1, nanos: 0 })));
    assert!(is_clock_reading(convert_to_utc_time(Timestamp { seconds: i64::MAX, nanos: 0 })));
    assert!(is_clock_reading(convert_to_utc_time(Timestamp { seconds: i64::MIN, nanos: 0 })));
}

#[test]
fn invalid_nanoseconds_fall_back_to_the_clock() {
    assert!(is_clock_reading(convert_to_utc_time(Timestamp { seconds: 10, nanos: -1 })));
    assert!(is_clock_reading(convert_to_utc_time(Timestamp { seconds: 10, nanos: i32::MIN })));
    assert!(is_clock_reading(convert_to_utc_time(Timestamp { seconds: 10, nanos: 2_000_000_000 })));
    assert!(is_clock_reading(convert_to_utc_time(Timestamp { seconds: 10, nanos: 1_000_000_000 })));
    assert!(is_clock_reading(convert_to_utc_time(Timestamp { seconds: 60, nanos: 1_500_000_000 })));
}

#[test]
fn leap_second_is_representable_in_the_last_second_of_a_minute() {
    let t = convert_to_utc_time(Timestamp { seconds: 59, nanos: 1_500_000_000 });
    assert_eq!(t, UtcDateTime { seconds: 59, nanos: 1_500_000_000 });
    let t = convert_to_utc_time(Timestamp { seconds: -1, nanos: 1_999_999_999 });
    assert_eq!(t, UtcDateTime { seconds: -1, nanos: 1_999_999_999 });
    let t = convert_to_utc_time(Timestamp { seconds: -61, nanos: 1_000_000_000 });
    assert_eq!(t, UtcDateTime { seconds: -61, nanos: 1_000_000_000 });
}

#[test]
fn date_time_converts_to_timestamp_and_back() {
    let dt = UtcDateTime { seconds: 1_747_335_600, nanos: 123_456_789 };
    let ts = convert_to_timestamp(dt);
    assert_eq!(ts, Timestamp { seconds: 1_747_335_600, nanos: 123_456_789 });
    assert_eq!(convert_to_utc_time(ts), dt);
}

#[test]
fn timestamp_order_goes_by_seconds_then_nanoseconds() {
    let a = Timestamp { seconds: 1, nanos: 500 };
    let b = Timestamp { seconds: 1, nanos: 900 };
    let c = Timestamp { seconds: 2, nanos: 0 };
    assert!(a.before(&b));
    assert!(b.before(&c));
    assert!(a.before(&c));
    assert!(!b.before(&a));
    assert!(!a.before(&a));
    assert!(!c.before(&b));
}

#[test]
fn date_time_order_goes_by_seconds_then_nanoseconds() {
    let a = UtcDateTime { seconds: -5, nanos: 7 };
    let b = UtcDateTime { seconds: -5, nanos: 8 };
    let c = UtcDateTime { seconds: 0, nanos: 0 };
    assert!(a.before(&b));
    assert!(b.before(&c));
    assert!(!c.before(&a));
    assert!(!b.before(&b));
}

#[test]
fn storage_time_is_read_in_utc() {
    assert_eq!(
        UtcDateTime::parse_storage_time("2025-05-14 22:00:00+00"),
        Some(UtcDateTime { seconds: 1_747_260_000, nanos: 0 })
    );
    assert_eq!(
        UtcDateTime::parse_storage_time("2025-05-14 15:00:00-07"),
        Some(UtcDateTime { seconds: 1_747_260_000, nanos: 0 })
    );
    assert_eq!(
        UtcDateTime::parse_storage_time("2025-05-15 03:30:00+05:30"),
        Some(UtcDateTime { seconds: 1_747_260_000, nanos: 0 })
    );
    assert_eq!(
        UtcDateTime::parse_storage_time("1970-01-01 00:00:00+00"),
        Some(UtcDateTime { seconds: 0, nanos: 0 })
    );
}

#[test]
fn storage_time_may_carry_a_fraction_of_the_second() {
    assert_eq!(
        UtcDateTime::parse_storage_time("2025-05-14 22:00:00.25+00"),
        Some(UtcDateTime { seconds: 1_747_260_000, nanos: 250_000_000 })
    );
    assert_eq!(
        UtcDateTime::parse_storage_time("2025-05-14 22:00:00.123456+00"),
        Some(UtcDateTime { seconds: 1_747_260_000, nanos: 123_456_000 })
    );
}

#[test]
fn text_that_is_no_storage_time_reads_as_nothing() {
    assert_eq!(UtcDateTime::parse_storage_time(""), None);
    assert_eq!(UtcDateTime::parse_storage_time("yesterday"), None);
    assert_eq!(UtcDateTime::parse_storage_time("2025-05-14 22:00:00"), None);
    assert_eq!(UtcDateTime::parse_storage_time("2025-13-14 22:00:00+00"), None);
    assert_eq!(UtcDateTime::parse_storage_time("2025-05-14 25:00:00+00"), None);
    assert_eq!(UtcDateTime::parse_storage_time("2025-05-14T22:00:00+00"), None);
    assert_eq!(UtcDateTime::parse_storage_time("\\2025-05-14 22:00:00+00"), None);
}

#[test]
fn reading_becomes_a_date_time_only_if_representable() {
    assert_eq!(UtcDateTime::from_reading(None), None);
    assert_eq!(
        UtcDateTime::from_reading(Some((1_747_260_000, 0))),
        Some(UtcDateTime { seconds: 1_747_260_000, nanos: 0 })
    );
    assert_eq!(
        UtcDateTime::from_reading(Some((59, 1_000_000_000))),
        Some(UtcDateTime { seconds: 59, nanos: 1_000_000_000 })
    );
    assert_eq!(UtcDateTime::from_reading(Some((58, 1_000_000_000))), None);
    assert_eq!(UtcDateTime::from_reading(Some((0, 2_000_000_000))), None);
    assert_eq!(UtcDateTime::from_reading(Some((MAX_UTC_SECONDS + 1, 0))), None);
    assert_eq!(UtcDateTime::from_reading(Some((MIN_UTC_SECONDS - 1, 0))), None);
    assert_eq!(
        UtcDateTime::from_reading(Some((MIN_UTC_SECONDS, 0))),
        Some(UtcDateTime { seconds: MIN_UTC_SECONDS, nanos: 0 })
    );
}
