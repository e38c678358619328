use supabase_fdw_ntp::scan::{after_fetch, detect_table_name, endpoint_response, FetchStep};
use supabase_fdw_ntp::{ApiError, NtpFdwError, OAuth2Error};

fn pairs(v: &[(&str, &str)]) -> Vec<(String, String)> {
    v.iter().map(|(k, x)| (k.to_string(), x.to_string())).collect()
}

fn cols(v: &[&str]) -> Vec<String> {
    v.iter().map(|c| c.to_string()).collect()
}

#[test]
fn table_name_from_options_in_key_order() {
    let opts = pairs(&[("name", "grid_status_timeseries"), ("object", "redispatch_events")]);
    assert_eq!(detect_table_name(&opts, &cols(&["price_type"])), "redispatch_events");
    let opts = pairs(&[("table", "electricity_market_prices"), ("object", "redispatch_events")]);
    assert_eq!(detect_table_name(&opts, &vec![]), "electricity_market_prices");
    let opts = pairs(&[("name", "grid_status_timeseries")]);
    assert_eq!(detect_table_name(&opts, &vec![]), "grid_status_timeseries");
}

#[test]
fn table_name_from_columns_or_default() {
    let none = pairs(&[("server", "x")]);
    assert_eq!(
        detect_table_name(&none, &cols(&["timestamp_utc", "reason", "price_type"])),
        "redispatch_events"
    );
    assert_eq!(detect_table_name(&none, &cols(&["grid_status"])), "grid_status_timeseries");
    assert_eq!(detect_table_name(&none, &cols(&["price_type"])), "electricity_market_prices");
    assert_eq!(detect_table_name(&none, &cols(&["product_type"])), "renewable_energy_timeseries");
    assert_eq!(detect_table_name(&none, &cols(&["timestamp_utc"])), "renewable_energy_timeseries");
}

#[test]
fn endpoint_response_by_status() {
    assert_eq!(endpoint_response(200, "a;b".to_string()).unwrap(), "a;b");
    assert_eq!(endpoint_response(404, "missing".to_string()).unwrap(), "");
    assert!(matches!(
        endpoint_response(401, String::new()),
        Err(NtpFdwError::OAuth2(OAuth2Error::TokenExpired))
    ));
    assert!(matches!(
        endpoint_response(429, String::new()),
        Err(NtpFdwError::Api(ApiError::RateLimited))
    ));
    match endpoint_response(500, "boom".to_string()) {
        Err(NtpFdwError::Api(ApiError::HttpError { status, body })) => {
            assert_eq!(status, 500);
            assert_eq!(body, "boom");
        }
        other => panic!("unexpected {:?}", other),
    }
}

#[test]
fn expired_token_is_retried_once() {
    assert!(matches!(after_fetch(false, Ok("x".to_string())), FetchStep::Deliver(b) if b == "x"));
    assert!(matches!(
        after_fetch(false, Err(NtpFdwError::OAuth2(OAuth2Error::TokenExpired))),
        FetchStep::RefreshAndRetry
    ));
    assert!(matches!(
        after_fetch(false, Err(NtpFdwError::Api(ApiError::RateLimited))),
        FetchStep::Fail(NtpFdwError::Api(ApiError::RateLimited))
    ));
    match after_fetch(true, Err(NtpFdwError::OAuth2(OAuth2Error::TokenExpired))) {
        FetchStep::Fail(NtpFdwError::Generic(m)) => assert_eq!(
            m,
            "Failed to fetch endpoint after retry: OAuth2 error: Access token expired and refresh failed"
        ),
        other => panic!("unexpected {:?}", other),
    }
}
