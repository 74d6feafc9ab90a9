//! Tests of the decimal and clock rendering, and of the clock wrappers.

use workout_core::clock::{format_date_label, now_unix_timestamp};
use workout_core::text::{fmt_duration, fmt_hundredths, fmt_i64, fmt_u64};

#[test]
fn test_fmt_u64() {
    assert_eq!(fmt_u64(0), "0");
    assert_eq!(fmt_u64(7), "7");
    assert_eq!(fmt_u64(42), "42");
    assert_eq!(fmt_u64(1000), "1000");
}

#[test]
fn test_fmt_i64() {
    assert_eq!(fmt_i64(-1), "-1");
    assert_eq!(fmt_i64(-210), "-210");
    assert_eq!(fmt_i64(90), "90");
}

#[test]
fn test_fmt_hundredths() {
    // Whole values render without a decimal point.
    assert_eq!(fmt_hundredths(4500), "45");
    assert_eq!(fmt_hundredths(15000), "150");
    // Fractions render in their natural form.
    assert_eq!(fmt_hundredths(250), "2.5");
    assert_eq!(fmt_hundredths(125), "1.25");
    assert_eq!(fmt_hundredths(-50), "-0.5");
}

#[test]
fn test_fmt_duration() {
    assert_eq!(fmt_duration(0), "00:00");
    assert_eq!(fmt_duration(59), "00:59");
    assert_eq!(fmt_duration(60), "01:00");
    assert_eq!(fmt_duration(323), "05:23");
    assert_eq!(fmt_duration(3661), "61:01");
}

#[test]
fn test_format_date_label() {
    // The epoch renders with English month abbreviation, day and year.
    assert_eq!(format_date_label(0), "Jan 01, 1970");
    assert_eq!(format_date_label(86400 * 365), "Jan 01, 1971");
}

#[test]
fn test_now_unix_timestamp_is_current() {
    // The clock reads as a present-day timestamp, not a constant.
    let now = now_unix_timestamp();
    assert!(now > 1_600_000_000);
}
