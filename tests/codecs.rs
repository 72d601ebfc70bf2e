use chrono::{Datelike, TimeZone, Timelike, Utc};
use wot_replays::codec::{bool_from_anything, WireScalar};
use wot_replays::dictionaries::{DeathReason, FinishReason};
use wot_replays::timestamp::{format_timestamp, parse_timestamp, UtcDateTime};

fn text(s: &str) -> WireScalar {
    WireScalar::Text(s.to_string())
}

#[test]
fn lenient_bool_accepts_true_forms() {
    assert_eq!(bool_from_anything(&WireScalar::Bool(true)), Some(true));
    assert_eq!(bool_from_anything(&WireScalar::Int(1)), Some(true));
    assert_eq!(bool_from_anything(&text("true")), Some(true));
    assert_eq!(bool_from_anything(&text("1")), Some(true));
}

#[test]
fn lenient_bool_accepts_false_forms() {
    assert_eq!(bool_from_anything(&WireScalar::Bool(false)), Some(false));
    assert_eq!(bool_from_anything(&WireScalar::Int(0)), Some(false));
    assert_eq!(bool_from_anything(&text("false")), Some(false));
    assert_eq!(bool_from_anything(&text("0")), Some(false));
}

#[test]
fn lenient_bool_rejects_other_values() {
    assert_eq!(bool_from_anything(&text("yes")), None);
    assert_eq!(bool_from_anything(&WireScalar::Null), None);
    assert_eq!(bool_from_anything(&WireScalar::Fractional), None);
    assert_eq!(bool_from_anything(&text("2.5")), None);
    assert_eq!(bool_from_anything(&text("True")), None);
    assert_eq!(bool_from_anything(&text("")), None);
    assert_eq!(bool_from_anything(&text("-")), None);
    assert_eq!(bool_from_anything(&WireScalar::Compound), None);
}

#[test]
fn lenient_bool_numbers_are_true_unless_zero() {
    assert_eq!(bool_from_anything(&WireScalar::Int(-7)), Some(true));
    assert_eq!(bool_from_anything(&WireScalar::UInt(u64::MAX)), Some(true));
    assert_eq!(bool_from_anything(&text("42")), Some(true));
    assert_eq!(bool_from_anything(&text("-3")), Some(true));
    assert_eq!(bool_from_anything(&text("000")), Some(false));
    assert_eq!(bool_from_anything(&text("+0")), Some(false));
}

#[test]
fn timestamp_round_trips() {
    let t = parse_timestamp("12.04.2021 21:44:00").unwrap();
    assert_eq!(
        t,
        UtcDateTime { year: 2021, month: 4, day: 12, hour: 21, minute: 44, second: 0 }
    );
    let instant = Utc.with_ymd_and_hms(2021, 4, 12, 21, 44, 0).unwrap();
    assert_eq!(
        (instant.year() as u16, instant.month() as u8, instant.day() as u8),
        (t.year, t.month, t.day)
    );
    assert_eq!(
        (instant.hour() as u8, instant.minute() as u8, instant.second() as u8),
        (t.hour, t.minute, t.second)
    );
    assert_eq!(format_timestamp(&t), "12.04.2021 21:44:00");
}

#[test]
fn timestamp_formats_with_leading_zeros() {
    let t = UtcDateTime { year: 987, month: 1, day: 2, hour: 3, minute: 4, second: 5 };
    assert!(t.is_valid());
    assert_eq!(format_timestamp(&t), "02.01.0987 03:04:05");
    assert_eq!(parse_timestamp("02.01.0987 03:04:05"), Some(t));
}

#[test]
fn timestamp_rejects_other_formats() {
    assert_eq!(parse_timestamp("2021-04-12 21:44:00"), None);
    assert_eq!(parse_timestamp("12.04.2021T21:44:00"), None);
    assert_eq!(parse_timestamp("1.04.2021 21:44:00"), None);
    assert_eq!(parse_timestamp("12.04.2021 21:44"), None);
    assert_eq!(parse_timestamp("12.04.2021 21:44:00 "), None);
    assert_eq!(parse_timestamp("12.04.2021 24:00:00"), None);
    assert_eq!(parse_timestamp("12.13.2021 10:00:00"), None);
}

#[test]
fn timestamp_checks_the_calendar() {
    assert_eq!(parse_timestamp("31.04.2021 10:00:00"), None);
    assert_eq!(parse_timestamp("29.02.2021 10:00:00"), None);
    assert!(parse_timestamp("29.02.2020 10:00:00").is_some());
    assert_eq!(parse_timestamp("29.02.1900 10:00:00"), None);
    assert!(parse_timestamp("29.02.2000 10:00:00").is_some());
    let bad = UtcDateTime { year: 2021, month: 2, day: 30, hour: 0, minute: 0, second: 0 };
    assert!(!bad.is_valid());
}

#[test]
fn unknown_enum_codes_fail() {
    assert_eq!(DeathReason::from_code(99), None);
    assert_eq!(FinishReason::from_code(99), None);
    assert_eq!(DeathReason::from_code(16), None);
    assert_eq!(DeathReason::from_code(-2), None);
    assert_eq!(FinishReason::from_code(6), None);
    assert_eq!(FinishReason::from_code(-1), None);
}

#[test]
fn known_enum_codes_decode() {
    assert_eq!(DeathReason::from_code(-1), Some(DeathReason::Alive));
    assert_eq!(DeathReason::from_code(15), Some(DeathReason::NoReason));
    assert_eq!(DeathReason::from_code(7), Some(DeathReason::Overturn));
    assert_eq!(DeathReason::Alive.code(), -1);
    assert_eq!(DeathReason::BomberEq.code(), 14);
    assert_eq!(FinishReason::from_code(2), Some(FinishReason::BaseCaptured));
    assert_eq!(FinishReason::Technical.code(), 5);
    for c in -1..=15i64 {
        assert_eq!(DeathReason::from_code(c).unwrap().code() as i64, c);
    }
    for c in 0..=5i64 {
        assert_eq!(FinishReason::from_code(c).unwrap().code() as i64, c);
    }
}
