//! Decisions of the scan driver: which table a scan reads, what an HTTP
//! reply means, and whether a failed fetch is retried with a fresh token.
//! The driver performs the I/O and hands the results in.
use crate::error::{ApiError, NtpFdwError, OAuth2Error};
use crate::text::{owned, same_text};
use vstd::prelude::*;

verus! {

/// What an HTTP reply of the remote API means: a body to parse (empty when
/// there is no data), or an error.
pub fn endpoint_response(status: u16, body: String) -> (r: Result<String, NtpFdwError>)
    ensures
        status == 200 ==> (r matches Ok(b) && b@ == body@),
        status == 404 ==> (r matches Ok(b) && b@.len() == 0),
        status == 401 ==> (r matches Err(NtpFdwError::OAuth2(OAuth2Error::TokenExpired))),
        status == 429 ==> (r matches Err(NtpFdwError::Api(ApiError::RateLimited))),
        status != 200 && status != 404 && status != 401 && status != 429 ==> (r matches Err(
            NtpFdwError::Api(ApiError::HttpError { status: s, body: b }),
        ) && s == status && b@ == body@),
{
    if status == 200 {
        Ok(body)
    } else if status == 401 {
        Err(NtpFdwError::OAuth2(OAuth2Error::TokenExpired))
    } else if status == 404 {
        Ok(String::new())
    } else if status == 429 {
        Err(NtpFdwError::Api(ApiError::RateLimited))
    } else {
        Err(NtpFdwError::Api(ApiError::HttpError { status, body }))
    }
}

/// Next step after one fetch attempt.
#[derive(Debug)]
pub enum FetchStep {
    /// The body is the answer.
    Deliver(String),
    /// Clear the token cache, get a fresh token and fetch once more.
    RefreshAndRetry,
    /// The fetch failed for good.
    Fail(NtpFdwError),
}

/// Decides on the outcome of a fetch: an expired token on the first attempt
/// is retried once with a fresh token; a failed retry is reported with its
/// cause.
pub fn after_fetch(retried: bool, outcome: Result<String, NtpFdwError>) -> (r: FetchStep)
    ensures
        match outcome {
            Ok(b) => r matches FetchStep::Deliver(d) && d@ == b@,
            Err(e) => if !retried {
                if e matches NtpFdwError::OAuth2(OAuth2Error::TokenExpired) {
                    r is RefreshAndRetry
                } else {
                    r == FetchStep::Fail(e)
                }
            } else {
                r matches FetchStep::Fail(NtpFdwError::Generic(m)) && m@
                    == "Failed to fetch endpoint after retry: "@ + e.message()
            },
        },
{
    match outcome {
        Ok(b) => FetchStep::Deliver(b),
        Err(e) => if !retried {
            if let NtpFdwError::OAuth2(OAuth2Error::TokenExpired) = e {
                FetchStep::RefreshAndRetry
            } else {
                FetchStep::Fail(e)
            }
        } else {
            let mut m = owned("Failed to fetch endpoint after retry: ");
            m.append(e.to_string().as_str());
            FetchStep::Fail(NtpFdwError::Generic(m))
        },
    }
}

/// Value of the first option named `key`.
pub open spec fn option_value(opts: Seq<(String, String)>, key: Seq<char>) -> Option<Seq<char>>
    decreases opts.len(),
{
    if opts.len() == 0 {
        None
    } else if opts[0].0@ == key {
        Some(opts[0].1@)
    } else {
        option_value(opts.drop_first(), key)
    }
}

/// Table named by the first column that only one table has; the renewable
/// table when none does.
pub open spec fn table_of_columns(cols: Seq<String>) -> Seq<char>
    decreases cols.len(),
{
    if cols.len() == 0 {
        "renewable_energy_timeseries"@
    } else if cols[0]@ == "product_type"@ {
        "renewable_energy_timeseries"@
    } else if cols[0]@ == "price_type"@ {
        "electricity_market_prices"@
    } else if cols[0]@ == "reason"@ {
        "redispatch_events"@
    } else if cols[0]@ == "grid_status"@ {
        "grid_status_timeseries"@
    } else {
        table_of_columns(cols.drop_first())
    }
}

/// The table of a scan: the `table`, `object` or `name` option, in that
/// order, or else the table that the projected columns point to.
pub open spec fn detected_table(opts: Seq<(String, String)>, cols: Seq<String>) -> Seq<char> {
    match option_value(opts, "table"@) {
        Some(v) => v,
        None => match option_value(opts, "object"@) {
            Some(v) => v,
            None => match option_value(opts, "name"@) {
                Some(v) => v,
                None => table_of_columns(cols),
            },
        },
    }
}

fn find_option(opts: &Vec<(String, String)>, key: &str) -> (r: Option<String>)
    ensures
        match r {
            Some(v) => option_value(opts@, key@) == Some(v@),
            None => option_value(opts@, key@) is None,
        },
{
    let mut i: usize = 0;
    assert(opts@.skip(0) =~= opts@);
    while i < opts.len()
        invariant
            i <= opts.len(),
            option_value(opts@, key@) == option_value(opts@.skip(i as int), key@),
        decreases opts.len() - i,
    {
        assert(opts@.skip(i as int).drop_first() =~= opts@.skip(i + 1));
        assert(opts@.skip(i as int)[0] == opts@[i as int]);
        if same_text(opts[i].0.as_str(), key) {
            return Some(opts[i].1.clone());
        }
        i = i + 1;
    }
    assert(opts@.skip(i as int).len() == 0);
    None
}

/// Names the logical table of a scan from its table options and its
/// projected columns.
pub fn detect_table_name(options: &Vec<(String, String)>, columns: &Vec<String>) -> (r: String)
    ensures
        r@ == detected_table(options@, columns@),
{
    if let Some(v) = find_option(options, "table") {
        return v;
    }
    if let Some(v) = find_option(options, "object") {
        return v;
    }
    if let Some(v) = find_option(options, "name") {
        return v;
    }
    let mut i: usize = 0;
    assert(columns@.skip(0) =~= columns@);
    while i < columns.len()
        invariant
            i <= columns.len(),
            option_value(options@, "table"@) is None,
            option_value(options@, "object"@) is None,
            option_value(options@, "name"@) is None,
            table_of_columns(columns@) == table_of_columns(columns@.skip(i as int)),
        decreases columns.len() - i,
    {
        assert(columns@.skip(i as int).drop_first() =~= columns@.skip(i + 1));
        assert(columns@.skip(i as int)[0] == columns@[i as int]);
        let name = columns[i].as_str();
        if same_text(name, "product_type") {
            return owned("renewable_energy_timeseries");
        }
        if same_text(name, "price_type") {
            return owned("electricity_market_prices");
        }
        if same_text(name, "reason") {
            return owned("redispatch_events");
        }
        if same_text(name, "grid_status") {
            return owned("grid_status_timeseries");
        }
        i = i + 1;
    }
    assert(columns@.skip(i as int).len() == 0);
    owned("renewable_energy_timeseries")
}

} // verus!
