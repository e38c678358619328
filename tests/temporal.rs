use chrono::{DateTime, NaiveDate, Utc};
use supabase_fdw_ntp::calendar::{
    add_days_to_date, extract_date_component, micros_to_date_string, parse_string_to_micros,
};
use supabase_fdw_ntp::quals::{parse_quals, resolve_timestamp_range, Qual, QualValue};
use supabase_fdw_ntp::query_router::route_query;
use supabase_fdw_ntp::row_filter::{filter_grid_status_rows, matches_timestamp_bounds};
use supabase_fdw_ntp::{GridStatusRow, TimestampBounds};

fn micros(s: &str) -> i64 {
    DateTime::parse_from_rfc3339(s).unwrap().timestamp_micros()
}

fn text_qual(field: &str, op: &str, value: &str) -> Qual {
    Qual {
        field: field.to_string(),
        operator: op.to_string(),
        value: QualValue::Text(value.to_string()),
    }
}

fn ts_qual(op: &str, value: i64) -> Qual {
    Qual {
        field: "timestamp_utc".to_string(),
        operator: op.to_string(),
        value: QualValue::Timestamptz(value),
    }
}

fn row(ts: &str) -> GridStatusRow {
    GridStatusRow {
        timestamp_utc: ts.to_string(),
        interval_end_utc: ts.to_string(),
        grid_status: "GREEN".to_string(),
        source_endpoint: "TrafficLight".to_string(),
    }
}

#[test]
fn test_matches_timestamp_bounds_gte() {
    let bounds = TimestampBounds {
        start: Some(micros("2024-10-20T10:00:00Z")),
        start_operator: Some(">=".to_string()),
        end: None,
        end_operator: None,
    };

    assert!(!matches_timestamp_bounds("2024-10-20T09:59:59Z", &bounds));
    assert!(matches_timestamp_bounds("2024-10-20T10:00:00Z", &bounds));
    assert!(matches_timestamp_bounds("2024-10-20T10:00:01Z", &bounds));
    assert!(matches_timestamp_bounds("2024-10-20T15:30:00Z", &bounds));
}

#[test]
fn test_matches_timestamp_bounds_lt() {
    let bounds = TimestampBounds {
        start: None,
        start_operator: None,
        end: Some(micros("2024-10-20T16:00:00Z")),
        end_operator: Some("<".to_string()),
    };

    assert!(matches_timestamp_bounds("2024-10-20T15:59:59Z", &bounds));
    assert!(matches_timestamp_bounds("2024-10-20T10:00:00Z", &bounds));
    assert!(!matches_timestamp_bounds("2024-10-20T16:00:00Z", &bounds));
    assert!(!matches_timestamp_bounds("2024-10-20T16:00:01Z", &bounds));
}

#[test]
fn test_matches_timestamp_bounds_range() {
    let bounds = TimestampBounds {
        start: Some(micros("2024-10-20T10:00:00Z")),
        start_operator: Some(">=".to_string()),
        end: Some(micros("2024-10-20T16:00:00Z")),
        end_operator: Some("<".to_string()),
    };

    assert!(!matches_timestamp_bounds("2024-10-20T09:59:59Z", &bounds));
    assert!(matches_timestamp_bounds("2024-10-20T10:00:00Z", &bounds));
    assert!(matches_timestamp_bounds("2024-10-20T12:30:00Z", &bounds));
    assert!(matches_timestamp_bounds("2024-10-20T15:45:00Z", &bounds));
    assert!(!matches_timestamp_bounds("2024-10-20T16:00:00Z", &bounds));
    assert!(!matches_timestamp_bounds("2024-10-20T16:00:01Z", &bounds));
}

#[test]
fn matches_other_operators_and_unparsable_rows() {
    let bounds = TimestampBounds {
        start: Some(micros("2024-10-20T10:00:00Z")),
        start_operator: Some(">".to_string()),
        end: Some(micros("2024-10-20T12:00:00Z")),
        end_operator: Some("<=".to_string()),
    };
    assert!(!matches_timestamp_bounds("2024-10-20T10:00:00Z", &bounds));
    assert!(matches_timestamp_bounds("2024-10-20T10:00:01Z", &bounds));
    assert!(matches_timestamp_bounds("2024-10-20T12:00:00Z", &bounds));
    assert!(!matches_timestamp_bounds("2024-10-20T12:00:01Z", &bounds));
    assert!(!matches_timestamp_bounds("not a timestamp", &bounds));
    let exact = TimestampBounds {
        start: Some(micros("2024-10-20T10:00:00Z")),
        start_operator: Some("=".to_string()),
        end: None,
        end_operator: None,
    };
    assert!(matches_timestamp_bounds("2024-10-20T10:00:00Z", &exact));
    assert!(!matches_timestamp_bounds("2024-10-20T10:00:01Z", &exact));
    let unknown_op = TimestampBounds {
        start: Some(micros("2024-10-20T10:00:00Z")),
        start_operator: Some("~".to_string()),
        end: None,
        end_operator: None,
    };
    assert!(matches_timestamp_bounds("2000-01-01T00:00:00Z", &unknown_op));
}

#[test]
fn filter_rows_keeps_daytime_rows_in_order() {
    let rows = vec![
        row("2024-10-20T09:00:00Z"),
        row("2024-10-20T10:00:00Z"),
        row("2024-10-20T12:00:00Z"),
        row("2024-10-20T16:00:00Z"),
        row("garbage"),
    ];
    let bounds = Some(TimestampBounds {
        start: Some(micros("2024-10-20T10:00:00Z")),
        start_operator: Some(">=".to_string()),
        end: Some(micros("2024-10-20T16:00:00Z")),
        end_operator: Some("<".to_string()),
    });
    let filtered = filter_grid_status_rows(rows, &bounds);
    assert_eq!(filtered.len(), 2);
    assert_eq!(filtered[0].timestamp_utc, "2024-10-20T10:00:00Z");
    assert_eq!(filtered[1].timestamp_utc, "2024-10-20T12:00:00Z");
    let again = filter_grid_status_rows(filtered.clone(), &bounds);
    assert_eq!(again, filtered);
}

#[test]
fn filter_rows_without_bounds_is_identity() {
    let rows = vec![row("2024-10-20T00:00:00Z"), row("garbage"), row("2024-10-20T12:00:00Z")];
    let filtered = filter_grid_status_rows(rows.clone(), &None);
    assert_eq!(filtered, rows);
}

#[test]
fn test_parse_string_to_micros_iso8601() {
    let m = parse_string_to_micros("2024-10-20T10:00:00Z").unwrap();
    assert_eq!(m, micros("2024-10-20T10:00:00Z"));

    let m2 = parse_string_to_micros("2024-10-20T15:30:45+00:00").unwrap();
    assert_eq!(m2, micros("2024-10-20T15:30:45+00:00"));
}

#[test]
fn test_parse_string_to_micros_date_only() {
    let m = parse_string_to_micros("2024-10-20").unwrap();

    let date = NaiveDate::from_ymd_opt(2024, 10, 20).unwrap();
    let dt = date.and_hms_opt(0, 0, 0).unwrap();
    let expected = DateTime::<Utc>::from_naive_utc_and_offset(dt, Utc).timestamp_micros();

    assert_eq!(m, expected);
    assert_eq!(m, 1_729_382_400_000_000);
}

#[test]
fn test_parse_string_to_micros_invalid() {
    assert!(parse_string_to_micros("invalid").is_none());
    assert!(parse_string_to_micros("2024-13-01").is_none());
    assert!(parse_string_to_micros("not-a-date").is_none());
}

#[test]
fn test_extract_date_component() {
    assert_eq!(extract_date_component("2024-10-20"), "2024-10-20");
    assert_eq!(extract_date_component("2024-10-20T10:00:00Z"), "2024-10-20");
    assert_eq!(extract_date_component("2024-10-20T10:00:00"), "2024-10-20");
    assert_eq!(extract_date_component("2024-10-20T15:30:45+00:00"), "2024-10-20");
}

#[test]
fn extract_date_component_without_time_mark() {
    assert_eq!(extract_date_component("2024-10-20 10:00"), "2024-10-20 10:00");
    assert_eq!(extract_date_component(""), "");
    assert_eq!(extract_date_component("Tuesday"), "");
}

#[test]
fn test_same_date_adjustment() {
    let start = "2024-10-20".to_string();
    let end = "2024-10-20".to_string();

    let adjusted_end = if start == end {
        add_days_to_date(&end, 1).unwrap()
    } else {
        end.clone()
    };

    assert_eq!(adjusted_end, "2024-10-21");
    assert_ne!(adjusted_end, start);

    let start2 = "2024-10-20".to_string();
    let end2 = "2024-10-21".to_string();

    let adjusted_end2 = if start2 == end2 {
        add_days_to_date(&end2, 1).unwrap()
    } else {
        end2.clone()
    };

    assert_eq!(adjusted_end2, "2024-10-21");
    assert_eq!(adjusted_end2, end2);
}

#[test]
fn test_add_days_to_date() {
    assert_eq!(add_days_to_date("2024-10-20", 1).unwrap(), "2024-10-21");
    assert_eq!(add_days_to_date("2024-10-20", 7).unwrap(), "2024-10-27");
    assert_eq!(add_days_to_date("2024-10-20", -1).unwrap(), "2024-10-19");
    assert_eq!(add_days_to_date("2024-10-31", 1).unwrap(), "2024-11-01");
    assert_eq!(add_days_to_date("2024-12-31", 1).unwrap(), "2025-01-01");
    assert_eq!(add_days_to_date("2024-02-28", 1).unwrap(), "2024-02-29");
    assert!(add_days_to_date("invalid", 1).is_err());
}

#[test]
fn add_days_to_date_formats_wide_years_and_range_end() {
    assert_eq!(add_days_to_date("9999-12-31", 1).unwrap(), "+10000-01-01");
    assert_eq!(add_days_to_date("0001-01-01", -1).unwrap(), "0000-12-31");
    assert_eq!(add_days_to_date("0000-01-01", -1).unwrap(), "-0001-12-31");
    assert_eq!(add_days_to_date("2023-03-01", -1).unwrap(), "2023-02-28");
    assert!(add_days_to_date("+262142-12-31", 1).is_err());
}

#[test]
fn test_cross_day_time_range_adjustment() {
    let start_date = "2024-10-20".to_string();
    let end_date = "2024-10-21".to_string();
    let has_time_bounds = true;

    let adjusted_end = if start_date == end_date {
        add_days_to_date(&end_date, 1).unwrap()
    } else if has_time_bounds {
        add_days_to_date(&end_date, 1).unwrap()
    } else {
        end_date.clone()
    };

    assert_eq!(adjusted_end, "2024-10-22");
    assert_ne!(adjusted_end, end_date);
}

#[test]
fn test_date_only_query_no_adjustment() {
    let start_date = "2024-10-20".to_string();
    let end_date = "2024-10-25".to_string();
    let has_time_bounds = false;

    let adjusted_end = if start_date == end_date {
        add_days_to_date(&end_date, 1).unwrap()
    } else if has_time_bounds {
        add_days_to_date(&end_date, 1).unwrap()
    } else {
        end_date.clone()
    };

    assert_eq!(adjusted_end, "2024-10-25");
    assert_eq!(adjusted_end, end_date);
}

#[test]
fn test_timestamp_range_adjustment_all_cases() {
    let (start1, end1, has_time1) = ("2024-10-20", "2024-10-20", true);
    let adj1 = if start1 == end1 {
        add_days_to_date(end1, 1).unwrap()
    } else if has_time1 {
        add_days_to_date(end1, 1).unwrap()
    } else {
        end1.to_string()
    };
    assert_eq!(adj1, "2024-10-21");

    let (start2, end2, has_time2) = ("2024-10-20", "2024-10-21", true);
    let adj2 = if start2 == end2 {
        add_days_to_date(end2, 1).unwrap()
    } else if has_time2 {
        add_days_to_date(end2, 1).unwrap()
    } else {
        end2.to_string()
    };
    assert_eq!(adj2, "2024-10-22");

    let (start3, end3, has_time3) = ("2024-10-20", "2024-10-25", false);
    let adj3 = if start3 == end3 {
        add_days_to_date(end3, 1).unwrap()
    } else if has_time3 {
        add_days_to_date(end3, 1).unwrap()
    } else {
        end3.to_string()
    };
    assert_eq!(adj3, "2024-10-25");
}

#[test]
fn micros_to_date_string_truncates_toward_zero() {
    assert_eq!(micros_to_date_string(0).unwrap(), "1970-01-01");
    assert_eq!(micros_to_date_string(micros("2024-10-20T23:59:59Z")).unwrap(), "2024-10-20");
    assert_eq!(micros_to_date_string(-1).unwrap(), "1970-01-01");
    assert_eq!(micros_to_date_string(-1_000_000).unwrap(), "1969-12-31");
    assert!(micros_to_date_string(i64::MIN).is_err());
}

#[test]
fn resolver_cases() {
    let s = |v: &str| Some(v.to_string());
    let single = resolve_timestamp_range(s("2024-10-20"), s("2024-10-20"), false).unwrap().unwrap();
    assert_eq!((single.start.as_str(), single.end.as_str()), ("2024-10-20", "2024-10-21"));
    let cross = resolve_timestamp_range(s("2024-10-20"), s("2024-10-21"), true).unwrap().unwrap();
    assert_eq!(cross.end, "2024-10-22");
    let plain = resolve_timestamp_range(s("2024-10-20"), s("2024-10-25"), false).unwrap().unwrap();
    assert_eq!(plain.end, "2024-10-25");
    let lower = resolve_timestamp_range(s("2024-10-24"), None, true).unwrap().unwrap();
    assert_eq!((lower.start.as_str(), lower.end.as_str()), ("2024-10-24", "2024-10-31"));
    let upper = resolve_timestamp_range(None, s("2024-10-31"), true).unwrap().unwrap();
    assert_eq!((upper.start.as_str(), upper.end.as_str()), ("2024-10-24", "2024-10-31"));
    assert!(resolve_timestamp_range(None, None, false).unwrap().is_none());
    assert!(resolve_timestamp_range(s("nope"), None, false).is_err());
    assert!(resolve_timestamp_range(s("2024-10-20"), s("nope"), true).is_err());
}

#[test]
fn single_day_with_category() {
    let quals = vec![
        text_qual("data_category", "=", "A"),
        text_qual("timestamp_utc", ">=", "2024-10-20"),
        text_qual("timestamp_utc", "<", "2024-10-20"),
    ];
    let f = parse_quals(&quals, "renewable_energy_timeseries".to_string()).unwrap();
    assert_eq!(f.data_category, Some("A".to_string()));
    let r = f.timestamp_range.unwrap();
    assert_eq!((r.start.as_str(), r.end.as_str()), ("2024-10-20", "2024-10-21"));
}

#[test]
fn midnight_crossing_window_and_filter() {
    let lo = micros("2024-10-20T23:00:00Z");
    let hi = micros("2024-10-21T01:00:00Z");
    let quals = vec![ts_qual(">=", lo), ts_qual("<", hi)];
    let f = parse_quals(&quals, "grid_status_timeseries".to_string()).unwrap();
    let r = f.timestamp_range.clone().unwrap();
    assert_eq!((r.start.as_str(), r.end.as_str()), ("2024-10-20", "2024-10-22"));
    let b = f.timestamp_bounds.clone().unwrap();
    assert_eq!((b.start, b.start_operator.as_deref()), (Some(lo), Some(">=")));
    assert_eq!((b.end, b.end_operator.as_deref()), (Some(hi), Some("<")));

    let rows = vec![
        row("2024-10-20T22:59:00Z"),
        row("2024-10-20T23:00:00Z"),
        row("2024-10-21T00:30:00Z"),
        row("2024-10-21T01:00:00Z"),
        row("2024-10-21T12:00:00Z"),
    ];
    let kept = filter_grid_status_rows(rows, &f.timestamp_bounds);
    let ts: Vec<&str> = kept.iter().map(|r| r.timestamp_utc.as_str()).collect();
    assert_eq!(ts, vec!["2024-10-20T23:00:00Z", "2024-10-21T00:30:00Z"]);

    let plans = route_query(&f, "https://api.example.com").unwrap();
    assert_eq!(plans[0].api_url, "https://api.example.com/TrafficLight/2024-10-20/2024-10-22");
}

#[test]
fn no_timestamp_uses_fallback_window() {
    let quals = vec![text_qual("product_type", "=", "solar"), text_qual("data_category", "=", "forecast")];
    let f = parse_quals(&quals, "renewable_energy_timeseries".to_string()).unwrap();
    assert!(f.timestamp_range.is_none());
    assert!(f.timestamp_bounds.is_none());
    let plans = route_query(&f, "https://api.example.com").unwrap();
    assert_eq!(plans.len(), 1);
    assert_eq!(plans[0].date_from, "2024-10-18");
    assert_eq!(plans[0].date_to, "2024-10-25");
}

#[test]
fn parse_quals_reads_operators_and_ignores_the_rest() {
    let quals = vec![
        text_qual("product_type", "<>", "wind_onshore"),
        text_qual("price_type", "=", "spot_market"),
        text_qual("unrelated", "=", "x"),
        Qual { field: "product_type".to_string(), operator: "=".to_string(), value: QualValue::Other },
        text_qual("timestamp_utc", "=", "2024-10-20T10:00:00Z"),
    ];
    let f = parse_quals(&quals, "electricity_market_prices".to_string()).unwrap();
    assert_eq!(f.product_type, None);
    assert_eq!(f.price_type, Some("spot_market".to_string()));
    assert_eq!(f.table_name, "electricity_market_prices");
    let r = f.timestamp_range.unwrap();
    assert_eq!((r.start.as_str(), r.end.as_str()), ("2024-10-20", "2024-10-21"));
    let b = f.timestamp_bounds.unwrap();
    let t = micros("2024-10-20T10:00:00Z");
    assert_eq!((b.start, b.start_operator.as_deref()), (Some(t), Some(">=")));
    assert_eq!((b.end, b.end_operator.as_deref()), (Some(t), Some("<=")));
}

#[test]
fn parse_quals_lower_bound_only_gets_seven_days() {
    let quals = vec![ts_qual(">", micros("2024-10-24T06:00:00Z"))];
    let f = parse_quals(&quals, "redispatch_events".to_string()).unwrap();
    let r = f.timestamp_range.unwrap();
    assert_eq!((r.start.as_str(), r.end.as_str()), ("2024-10-24", "2024-10-31"));
    let b = f.timestamp_bounds.unwrap();
    assert_eq!(b.start_operator.as_deref(), Some(">"));
    assert!(b.end.is_none());
}

#[test]
fn parse_quals_rejects_timestamp_without_date() {
    let quals = vec![ts_qual(">=", i64::MIN)];
    assert!(parse_quals(&quals, "redispatch_events".to_string()).is_err());
    let bad_text = vec![text_qual("timestamp_utc", ">=", "garbage")];
    assert!(parse_quals(&bad_text, "redispatch_events".to_string()).is_err());
}

#[test]
fn date_only_range_keeps_its_end() {
    let quals = vec![
        text_qual("timestamp_utc", ">=", "2024-10-24"),
        text_qual("timestamp_utc", "<", "2024-10-31"),
    ];
    let f = parse_quals(&quals, "renewable_energy_timeseries".to_string()).unwrap();
    let r = f.timestamp_range.unwrap();
    assert_eq!((r.start.as_str(), r.end.as_str()), ("2024-10-24", "2024-10-31"));
    let b = f.timestamp_bounds.unwrap();
    assert_eq!(b.start, Some(micros("2024-10-24T00:00:00Z")));
    assert_eq!(b.end, Some(micros("2024-10-31T00:00:00Z")));
}

#[test]
fn timestamp_without_offset_is_read_as_utc_time_of_day() {
    let quals = vec![
        text_qual("timestamp_utc", ">=", "2024-10-20T23:00:00"),
        text_qual("timestamp_utc", "<", "2024-10-21T01:00:00"),
    ];
    let f = parse_quals(&quals, "grid_status_timeseries".to_string()).unwrap();
    let r = f.timestamp_range.unwrap();
    assert_eq!((r.start.as_str(), r.end.as_str()), ("2024-10-20", "2024-10-22"));
    let b = f.timestamp_bounds.unwrap();
    assert_eq!(b.start, Some(micros("2024-10-20T23:00:00Z")));
    assert_eq!(b.end, Some(micros("2024-10-21T01:00:00Z")));
}

#[test]
fn one_timed_bound_widens_a_date_range() {
    let quals = vec![
        text_qual("timestamp_utc", ">=", "2024-10-20"),
        text_qual("timestamp_utc", "<", "2024-10-21T01:00:00Z"),
    ];
    let f = parse_quals(&quals, "grid_status_timeseries".to_string()).unwrap();
    let r = f.timestamp_range.unwrap();
    assert_eq!((r.start.as_str(), r.end.as_str()), ("2024-10-20", "2024-10-22"));
}

#[test]
fn malformed_timestamp_literal_is_an_error() {
    let quals = vec![
        text_qual("timestamp_utc", ">=", "garbage_01"),
        text_qual("timestamp_utc", "<", "garbage_02"),
    ];
    let e = parse_quals(&quals, "grid_status_timeseries".to_string()).unwrap_err();
    assert!(e.contains("garbage_01"));
    let one = vec![
        text_qual("timestamp_utc", ">=", "2024-10-20"),
        text_qual("timestamp_utc", "<", "2024-10-21 01:00"),
    ];
    assert!(parse_quals(&one, "grid_status_timeseries".to_string()).is_err());
}

#[test]
fn reversed_window_is_rejected() {
    let quals = vec![
        text_qual("timestamp_utc", ">=", "2024-10-25"),
        text_qual("timestamp_utc", "<", "2024-10-20"),
    ];
    assert!(parse_quals(&quals, "grid_status_timeseries".to_string()).is_err());
    let s = |v: &str| Some(v.to_string());
    assert!(resolve_timestamp_range(s("2024-10-25"), s("2024-10-20"), false).is_err());
    assert!(resolve_timestamp_range(s("2024-10-25"), s("2024-10-20"), true).is_err());
    // moved forward by a day, the end meets the start: an empty window, not a reversed one
    let w = resolve_timestamp_range(s("2024-10-21"), s("2024-10-20"), true).unwrap().unwrap();
    assert_eq!((w.start.as_str(), w.end.as_str()), ("2024-10-21", "2024-10-21"));
}

#[test]
fn window_day_comes_from_the_utc_instant() {
    let quals = vec![text_qual("timestamp_utc", ">=", "2024-10-21T01:00:00+05:00")];
    let f = parse_quals(&quals, "grid_status_timeseries".to_string()).unwrap();
    let r = f.timestamp_range.unwrap();
    assert_eq!((r.start.as_str(), r.end.as_str()), ("2024-10-20", "2024-10-27"));
    assert_eq!(f.timestamp_bounds.unwrap().start, Some(micros("2024-10-20T20:00:00Z")));
}

#[test]
fn add_days_to_date_beyond_i32_is_an_error() {
    assert!(add_days_to_date("2024-10-20", i64::MAX).is_err());
    assert!(add_days_to_date("2024-10-20", i64::MIN).is_err());
    assert!(add_days_to_date("2024-10-20", 3_000_000_000).is_err());
}
