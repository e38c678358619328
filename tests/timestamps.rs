use supabase_fdw_ntp::timestamps::month_bounds;
use supabase_fdw_ntp::error::{NtpFdwError, ParseError};
use supabase_fdw_ntp::timestamps::{
    calculate_interval_minutes, grid_status_row_from_record, parse_interval_timestamps,
    parse_iso8601_timestamp, parse_redispatch_timestamp, parse_timestamp,
};

#[test]
fn test_timestamp_german_format() {
    assert_eq!(
        parse_timestamp("23.10.2024", "22:00", "UTC").unwrap(),
        "2024-10-23T22:00:00Z"
    );
}

#[test]
fn test_timestamp_iso_format() {
    assert_eq!(
        parse_timestamp("2024-10-24", "06:30", "UTC").unwrap(),
        "2024-10-24T06:30:00Z"
    );
}

#[test]
fn test_timestamp_invalid_timezone() {
    assert!(parse_timestamp("2024-10-24", "06:30", "CET").is_err());
}

#[test]
fn test_timestamp_invalid_date_format() {
    assert!(parse_timestamp("32.10.2024", "06:30", "UTC").is_err());
    assert!(parse_timestamp("2024-13-01", "06:30", "UTC").is_err());
}

#[test]
fn test_timestamp_midnight() {
    assert_eq!(
        parse_timestamp("2024-10-24", "00:00", "UTC").unwrap(),
        "2024-10-24T00:00:00Z"
    );
}

#[test]
fn test_timestamp_edge_case() {
    assert_eq!(
        parse_timestamp("2024-10-24", "23:59", "UTC").unwrap(),
        "2024-10-24T23:59:00Z"
    );
}

#[test]
fn test_interval_15_minutes() {
    let minutes =
        calculate_interval_minutes("2024-10-24T06:00:00Z", "2024-10-24T06:15:00Z").unwrap();
    assert_eq!(minutes, 15);
}

#[test]
fn test_interval_60_minutes() {
    let minutes =
        calculate_interval_minutes("2024-10-24T06:00:00Z", "2024-10-24T07:00:00Z").unwrap();
    assert_eq!(minutes, 60);
}

#[test]
fn test_interval_cross_day() {
    let minutes =
        calculate_interval_minutes("2024-10-24T23:45:00Z", "2024-10-25T00:00:00Z").unwrap();
    assert_eq!(minutes, 15);
}

#[test]
fn test_parse_redispatch_timestamp_valid() {
    let dt = parse_redispatch_timestamp("23.10.2024", "22:00", "UTC").unwrap();
    assert_eq!(dt, "2024-10-23T22:00:00Z");
}

#[test]
fn test_parse_redispatch_timestamp_midnight() {
    let dt = parse_redispatch_timestamp("24.10.2024", "00:00", "UTC").unwrap();
    assert_eq!(dt, "2024-10-24T00:00:00Z");
}

#[test]
fn test_parse_redispatch_timestamp_invalid_timezone() {
    let result = parse_redispatch_timestamp("23.10.2024", "22:00", "CET");
    assert!(result.is_err());
}

#[test]
fn test_parse_redispatch_timestamp_invalid_date() {
    let result = parse_redispatch_timestamp("32.10.2024", "22:00", "UTC");
    assert!(result.is_err());
}

#[test]
fn test_parse_iso8601_timestamp_valid() {
    let dt = parse_iso8601_timestamp("2024-10-24T00:00:00Z").unwrap();
    assert_eq!(dt, "2024-10-24T00:00:00Z");
}

#[test]
fn test_parse_iso8601_timestamp_with_offset() {
    let dt = parse_iso8601_timestamp("2024-10-24T14:30:00+00:00").unwrap();
    assert_eq!(dt, "2024-10-24T14:30:00Z");
}

#[test]
fn test_parse_iso8601_timestamp_invalid() {
    let result = parse_iso8601_timestamp("invalid timestamp");
    assert!(result.is_err());
}

#[test]
fn test_parse_iso8601_timestamp_without_timezone_midnight() {
    // Test parsing timestamps without 'Z' suffix at midnight (TrafficLight API edge case)
    let dt = parse_iso8601_timestamp("2024-10-24T00:00:00").unwrap();
    assert_eq!(dt, "2024-10-24T00:00:00Z");
}

#[test]
fn test_parse_iso8601_timestamp_without_timezone_nonzero_time() {
    // Test parsing timestamps without 'Z' suffix with non-zero time
    let dt = parse_iso8601_timestamp("2024-10-24T14:30:45").unwrap();
    assert_eq!(dt, "2024-10-24T14:30:45Z");
}

#[test]
fn test_parse_iso8601_timestamp_without_timezone_day_boundary() {
    // Test parsing at end of day (23:59:59)
    let dt = parse_iso8601_timestamp("2024-10-24T23:59:59").unwrap();
    assert_eq!(dt, "2024-10-24T23:59:59Z");
}

#[test]
fn test_parse_iso8601_timestamp_invalid_hour() {
    // Invalid hour (25 > 23)
    let result = parse_iso8601_timestamp("2024-10-24T25:00:00");
    assert!(result.is_err());
}

#[test]
fn test_parse_iso8601_timestamp_invalid_minute() {
    // Invalid minute (60 >= 60)
    let result = parse_iso8601_timestamp("2024-10-24T12:60:00");
    assert!(result.is_err());
}

#[test]
fn test_parse_iso8601_timestamp_invalid_month() {
    // Invalid month (13 > 12)
    let result = parse_iso8601_timestamp("2024-13-01T00:00:00");
    assert!(result.is_err());
}

#[test]
fn test_parse_iso8601_timestamp_invalid_day() {
    // Invalid day (32 > 31)
    let result = parse_iso8601_timestamp("2024-10-32T00:00:00");
    assert!(result.is_err());
}

#[test]
fn interval_end_before_start_rolls_to_next_day() {
    let (s, e) = parse_interval_timestamps("23.10.2024", "23:45", "00:00", "UTC", "UTC").unwrap();
    assert_eq!(s, "2024-10-23T23:45:00Z");
    assert_eq!(e, "2024-10-24T00:00:00Z");
    let (s, e) = parse_interval_timestamps("2024-12-31", "22:00", "22:00", "UTC", "UTC").unwrap();
    assert_eq!(s, "2024-12-31T22:00:00Z");
    assert_eq!(e, "2025-01-01T22:00:00Z");
    let (s, e) = parse_interval_timestamps("24.10.2024", "06:00", "06:15", "UTC", "UTC").unwrap();
    assert_eq!((s.as_str(), e.as_str()), ("2024-10-24T06:00:00Z", "2024-10-24T06:15:00Z"));
}

#[test]
fn interval_rejects_bad_zone_time_or_date() {
    assert!(matches!(
        parse_interval_timestamps("24.10.2024", "06:00", "06:15", "UTC", "CET"),
        Err(ParseError::InvalidTimezone(_))
    ));
    assert!(matches!(
        parse_interval_timestamps("24.10.2024", "6h", "06:15", "UTC", "UTC"),
        Err(ParseError::InvalidTimestamp(_))
    ));
    assert!(matches!(
        parse_interval_timestamps("31.02.2024", "06:00", "06:15", "UTC", "UTC"),
        Err(ParseError::InvalidTimestamp(_))
    ));
}

#[test]
fn timestamp_error_names_date_and_time() {
    match parse_timestamp("32.10.2024", "06:30", "UTC") {
        Err(ParseError::InvalidTimestamp(v)) => assert_eq!(v, "32.10.2024 06:30"),
        other => panic!("unexpected {:?}", other),
    }
    match parse_timestamp("2024-10-24", "06:30", "CET") {
        Err(ParseError::InvalidTimezone(v)) => assert_eq!(v, "CET"),
        other => panic!("unexpected {:?}", other),
    }
}

#[test]
fn interval_minutes_errors_and_negative_spans() {
    assert_eq!(
        calculate_interval_minutes("2024-10-24T07:00:00Z", "2024-10-24T06:00:00Z").unwrap(),
        -60
    );
    assert!(matches!(
        calculate_interval_minutes("bad", "2024-10-24T06:00:00Z"),
        Err(ParseError::InvalidTimestamp(v)) if v == "bad"
    ));
    assert!(matches!(
        calculate_interval_minutes("2024-10-24T06:00:00Z", "worse"),
        Err(ParseError::InvalidTimestamp(v)) if v == "worse"
    ));
    match calculate_interval_minutes("2024-01-01T00:00:00Z", "2024-03-01T00:00:00Z") {
        Err(ParseError::InvalidTimestamp(m)) => assert!(m.starts_with("Interval too large: 86400 minutes")),
        other => panic!("unexpected {:?}", other),
    }
}

#[test]
fn traffic_light_record_becomes_row() {
    let row = grid_status_row_from_record("2024-10-24T00:00:00", "2024-10-24T00:01:00+00:00", "YELLOW_NEG")
        .unwrap();
    assert_eq!(row.timestamp_utc, "2024-10-24T00:00:00Z");
    assert_eq!(row.interval_end_utc, "2024-10-24T00:01:00Z");
    assert_eq!(row.grid_status, "YELLOW_NEG");
    assert_eq!(row.source_endpoint, "TrafficLight");
    assert!(matches!(
        grid_status_row_from_record("2024-10-24T00:00:00Z", "2024-10-24T00:01:00Z", "ORANGE"),
        Err(NtpFdwError::Parse(ParseError::InvalidGridStatus(_)))
    ));
    assert!(matches!(
        grid_status_row_from_record("yesterday", "2024-10-24T00:01:00Z", "RED"),
        Err(NtpFdwError::Parse(ParseError::InvalidTimestamp(_)))
    ));
}

#[test]
fn iso8601_offset_is_taken_to_utc() {
    assert_eq!(parse_iso8601_timestamp("2024-10-24T02:30:00+02:00").unwrap(), "2024-10-24T00:30:00Z");
}

#[test]
fn month_bounds_cover_whole_month() {
    assert_eq!(
        month_bounds(2024, 2).unwrap(),
        ("2024-02-01T00:00:00Z".to_string(), "2024-02-29T23:59:59Z".to_string())
    );
    assert_eq!(month_bounds(2023, 2).unwrap().1, "2023-02-28T23:59:59Z");
    assert_eq!(month_bounds(1900, 2).unwrap().1, "1900-02-28T23:59:59Z");
    assert_eq!(month_bounds(2000, 2).unwrap().1, "2000-02-29T23:59:59Z");
    assert_eq!(month_bounds(2024, 11).unwrap().1, "2024-11-30T23:59:59Z");
    assert_eq!(month_bounds(20, 1).unwrap().0, "0020-01-01T00:00:00Z");
    assert_eq!(month_bounds(-5, 1).unwrap().0, "-005-01-01T00:00:00Z");
    assert!(month_bounds(2024, 13).is_err());
    assert!(month_bounds(2024, 0).is_err());
}
