//! Parsing and rendering of the calendar date-time model.

use pbsfm_rss_feed::datetime::{parse_date_time, DateTime};

#[test]
fn parses_the_wire_format() {
    let dt = parse_date_time("2025-06-16 11:00:00").unwrap();
    assert_eq!(
        dt,
        DateTime { year: 2025, month: 6, day: 16, hour: 11, minute: 0, second: 0 }
    );
}

#[test]
fn rejects_other_shapes() {
    assert!(parse_date_time("2025-06-16T11:00:00").is_none());
    assert!(parse_date_time("2025-06-16 11:00").is_none());
    assert!(parse_date_time("2025-06-16 11:00:00 ").is_none());
    assert!(parse_date_time("2025/06/16 11:00:00").is_none());
    assert!(parse_date_time("").is_none());
    assert!(parse_date_time("yyyy-mm-dd hh:mm:ss").is_none());
}

#[test]
fn rejects_out_of_range_fields() {
    assert!(parse_date_time("2025-13-01 00:00:00").is_none());
    assert!(parse_date_time("2025-00-01 00:00:00").is_none());
    assert!(parse_date_time("2025-01-32 00:00:00").is_none());
    assert!(parse_date_time("2025-01-00 00:00:00").is_none());
    assert!(parse_date_time("2025-01-01 24:00:00").is_none());
    assert!(parse_date_time("2025-01-01 00:60:00").is_none());
    assert!(parse_date_time("2025-01-01 00:00:60").is_none());
}

#[test]
fn knows_month_lengths_and_leap_years() {
    assert!(parse_date_time("2025-02-29 00:00:00").is_none());
    assert!(parse_date_time("2024-02-29 00:00:00").is_some());
    assert!(parse_date_time("2000-02-29 00:00:00").is_some());
    assert!(parse_date_time("1900-02-29 00:00:00").is_none());
    assert!(parse_date_time("2025-04-31 00:00:00").is_none());
    assert!(parse_date_time("2025-04-30 00:00:00").is_some());
    assert!(parse_date_time("2025-12-31 23:59:59").is_some());
}

#[test]
fn renders_the_date_zero_padded() {
    let dt = DateTime::new(825, 6, 1, 0, 0, 0).unwrap();
    assert_eq!(dt.date_string(), "0825-06-01");
    let dt = parse_date_time("2025-08-25 11:00:00").unwrap();
    assert_eq!(dt.date_string(), "2025-08-25");
}

#[test]
fn new_checks_ranges() {
    assert!(DateTime::new(2025, 2, 29, 0, 0, 0).is_none());
    assert!(DateTime::new(2025, 6, 16, 11, 0, 0).is_some());
    assert!(DateTime::new(10000, 1, 1, 0, 0, 0).is_none());
}
