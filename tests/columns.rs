use supabase_fdw_ntp::columns::{
    column_index, get_field, require_columns, validate_price_header, validate_renewable_header,
};
use supabase_fdw_ntp::ParseError;

fn record(v: Vec<&str>) -> Vec<String> {
    v.into_iter().map(|s| s.to_string()).collect()
}

#[test]
fn test_get_field_success() {
    let headers = record(vec!["col1", "col2", "col3"]);
    let rec = record(vec!["a", "b", "c"]);

    assert_eq!(get_field(&rec, &headers, "col1").unwrap(), "a");
    assert_eq!(get_field(&rec, &headers, "col2").unwrap(), "b");
    assert_eq!(get_field(&rec, &headers, "col3").unwrap(), "c");
}

#[test]
fn test_get_field_missing_column() {
    let headers = record(vec!["col1", "col2"]);
    let rec = record(vec!["a", "b"]);

    assert!(get_field(&rec, &headers, "col3").is_err());
}

#[test]
fn test_get_field_empty_value() {
    let headers = record(vec!["col1"]);
    let rec = record(vec![""]);

    assert_eq!(get_field(&rec, &headers, "col1").unwrap(), "");
}

#[test]
fn get_field_short_record_and_duplicate_headers() {
    let headers = record(vec!["a", "b", "a"]);
    assert_eq!(get_field(&record(vec!["1", "2", "3"]), &headers, "a").unwrap(), "1");
    assert!(matches!(
        get_field(&record(vec!["1"]), &headers, "b"),
        Err(ParseError::MissingColumn(c)) if c == "b"
    ));
    assert_eq!(column_index(&headers, "b").unwrap(), 1);
}

#[test]
fn test_validate_renewable_header_valid() {
    let headers = record(vec![
        "Datum",
        "von",
        "bis",
        "Zeitzone von",
        "Zeitzone bis",
        "50Hertz (MW)",
        "Amprion (MW)",
        "TenneT TSO (MW)",
        "TransnetBW (MW)",
    ]);

    assert!(validate_renewable_header(&headers).is_ok());
}

#[test]
fn test_validate_renewable_header_missing_column() {
    let headers = record(vec!["Datum", "von", "bis", "50Hertz (MW)"]);

    assert!(validate_renewable_header(&headers).is_err());
}

#[test]
fn test_validate_price_header_valid() {
    let headers = record(vec![
        "Datum",
        "von",
        "bis",
        "Zeitzone von",
        "Zeitzone bis",
        "Spotmarktpreis in ct/kWh",
    ]);

    assert!(validate_price_header(&headers).is_ok());
}

#[test]
fn test_validate_price_header_missing_column() {
    let headers = record(vec!["Datum", "von", "bis"]);

    assert!(validate_price_header(&headers).is_err());
}

#[test]
fn test_validate_headers_with_extra_columns() {
    let headers = record(vec![
        "Datum",
        "von",
        "bis",
        "Zeitzone von",
        "Zeitzone bis",
        "50Hertz (MW)",
        "Amprion (MW)",
        "TenneT TSO (MW)",
        "TransnetBW (MW)",
        "ExtraColumn",
    ]);

    assert!(validate_renewable_header(&headers).is_ok());
}

#[test]
fn first_missing_column_is_reported() {
    let headers = record(vec!["Datum", "bis"]);
    assert!(matches!(
        require_columns(&headers, &vec!["Datum", "von", "Monat"]),
        Err(ParseError::MissingColumn(c)) if c == "von"
    ));
    assert!(require_columns(&headers, &vec![]).is_ok());
}
