//! Error types: row parsing, token acquisition, remote API and the
//! umbrella error of the planning boundary.
use crate::text::{dec_digits, owned, push_decimal};
use vstd::prelude::*;

verus! {

/// Top-level error of the library.
#[derive(Debug)]
pub enum NtpFdwError {
    /// Row parsing error
    Parse(ParseError),
    /// Token acquisition error
    OAuth2(OAuth2Error),
    /// Remote API error
    Api(ApiError),
    /// Error with a message only
    Generic(String),
}

/// Errors while turning remote payloads into rows.
#[derive(Debug, Clone)]
pub enum ParseError {
    InvalidDecimal(String),
    InvalidTimestamp(String),
    MissingColumn(String),
    InvalidTimezone(String),
    UnknownProduct(String),
    UnknownDataCategory(String),
    UnknownDirection(String),
    InvalidGridStatus(String),
    CsvFormat(String),
}

/// Errors of the client-credentials token flow.
#[derive(Debug, Clone)]
pub enum OAuth2Error {
    FetchFailed { status: u16, body: String },
    InvalidCredentials,
    InvalidTokenResponse(String),
    TokenExpired,
}

/// Errors of the remote API.
#[derive(Debug, Clone)]
pub enum ApiError {
    HttpError { status: u16, body: String },
    RateLimited,
    NetworkError(String),
    EmptyResponse,
    InvalidCsvResponse(String),
}

impl ParseError {
    pub open spec fn message(&self) -> Seq<char> {
        match self {
            ParseError::InvalidDecimal(v) => "Invalid decimal format: '"@ + v@
                + "' (expected German format with comma)"@,
            ParseError::InvalidTimestamp(v) => "Invalid timestamp format: '"@ + v@
                + "' (expected DD.MM.YYYY or YYYY-MM-DD)"@,
            ParseError::MissingColumn(c) => "Missing required column: '"@ + c@ + "'"@,
            ParseError::InvalidTimezone(t) => "Invalid timezone: '"@ + t@ + "' (expected UTC)"@,
            ParseError::UnknownProduct(p) => "Unknown product type: '"@ + p@
                + "' (expected Solar, Wind, Windonshore, or Windoffshore)"@,
            ParseError::UnknownDataCategory(e) => "Unknown data category from endpoint: '"@ + e@
                + "'"@,
            ParseError::UnknownDirection(d) => "Unknown redispatch direction: '"@ + d@
                + "' (expected 'Wirkleistungseinspeisung erhöhen' or 'Wirkleistungseinspeisung reduzieren')"@,
            ParseError::InvalidGridStatus(s) => "Invalid grid status: '"@ + s@
                + "' (expected GREEN, YELLOW, or RED)"@,
            ParseError::CsvFormat(m) => "CSV format error: "@ + m@,
        }
    }

    /// Human-readable description of the error.
    pub fn to_string(&self) -> (r: String)
        ensures
            r@ == self.message(),
    {
        let (head, val, tail) = match self {
            ParseError::InvalidDecimal(v) => (
                "Invalid decimal format: '",
                v,
                "' (expected German format with comma)",
            ),
            ParseError::InvalidTimestamp(v) => (
                "Invalid timestamp format: '",
                v,
                "' (expected DD.MM.YYYY or YYYY-MM-DD)",
            ),
            ParseError::MissingColumn(c) => ("Missing required column: '", c, "'"),
            ParseError::InvalidTimezone(t) => ("Invalid timezone: '", t, "' (expected UTC)"),
            ParseError::UnknownProduct(p) => (
                "Unknown product type: '",
                p,
                "' (expected Solar, Wind, Windonshore, or Windoffshore)",
            ),
            ParseError::UnknownDataCategory(e) => (
                "Unknown data category from endpoint: '",
                e,
                "'",
            ),
            ParseError::UnknownDirection(d) => (
                "Unknown redispatch direction: '",
                d,
                "' (expected 'Wirkleistungseinspeisung erhöhen' or 'Wirkleistungseinspeisung reduzieren')",
            ),
            ParseError::InvalidGridStatus(s) => (
                "Invalid grid status: '",
                s,
                "' (expected GREEN, YELLOW, or RED)",
            ),
            ParseError::CsvFormat(m) => ("CSV format error: ", m, ""),
        };
        let mut out = owned(head);
        out.append(val.as_str());
        out.append(tail);
        proof {
            if self is CsvFormat {
                reveal_strlit("");
                assert(out@ =~= self.message());
            }
        }
        out
    }
}

impl OAuth2Error {
    pub open spec fn message(&self) -> Seq<char> {
        match self {
            OAuth2Error::FetchFailed { status, body } => "Token fetch failed (HTTP "@ + dec_digits(
                *status as nat,
            ) + "): "@ + body@,
            OAuth2Error::InvalidCredentials =>
                "Invalid OAuth2 credentials (check client_id and client_secret)"@,
            OAuth2Error::InvalidTokenResponse(m) => "Invalid token response: "@ + m@,
            OAuth2Error::TokenExpired => "Access token expired and refresh failed"@,
        }
    }

    /// Human-readable description of the error.
    pub fn to_string(&self) -> (r: String)
        ensures
            r@ == self.message(),
    {
        match self {
            OAuth2Error::FetchFailed { status, body } => {
                let mut out = owned("Token fetch failed (HTTP ");
                push_decimal(&mut out, *status as u64);
                out.append("): ");
                out.append(body.as_str());
                out
            },
            OAuth2Error::InvalidCredentials => owned(
                "Invalid OAuth2 credentials (check client_id and client_secret)",
            ),
            OAuth2Error::InvalidTokenResponse(m) => {
                let mut out = owned("Invalid token response: ");
                out.append(m.as_str());
                out
            },
            OAuth2Error::TokenExpired => owned("Access token expired and refresh failed"),
        }
    }
}

impl ApiError {
    pub open spec fn message(&self) -> Seq<char> {
        match self {
            ApiError::HttpError { status, body } => "HTTP "@ + dec_digits(*status as nat)
                + " error: "@ + body@,
            ApiError::RateLimited =>
                "Rate limit exceeded (HTTP 429). Implement exponential backoff."@,
            ApiError::NetworkError(m) => "Network error: "@ + m@,
            ApiError::EmptyResponse => "API returned empty response"@,
            ApiError::InvalidCsvResponse(m) => "Invalid CSV response: "@ + m@,
        }
    }

    /// Human-readable description of the error.
    pub fn to_string(&self) -> (r: String)
        ensures
            r@ == self.message(),
    {
        match self {
            ApiError::HttpError { status, body } => {
                let mut out = owned("HTTP ");
                push_decimal(&mut out, *status as u64);
                out.append(" error: ");
                out.append(body.as_str());
                out
            },
            ApiError::RateLimited => owned(
                "Rate limit exceeded (HTTP 429). Implement exponential backoff.",
            ),
            ApiError::NetworkError(m) => {
                let mut out = owned("Network error: ");
                out.append(m.as_str());
                out
            },
            ApiError::EmptyResponse => owned("API returned empty response"),
            ApiError::InvalidCsvResponse(m) => {
                let mut out = owned("Invalid CSV response: ");
                out.append(m.as_str());
                out
            },
        }
    }
}

impl NtpFdwError {
    pub open spec fn message(&self) -> Seq<char> {
        match self {
            NtpFdwError::Parse(e) => "Parse error: "@ + e.message(),
            NtpFdwError::OAuth2(e) => "OAuth2 error: "@ + e.message(),
            NtpFdwError::Api(e) => "API error: "@ + e.message(),
            NtpFdwError::Generic(m) => m@,
        }
    }

    /// Human-readable description of the error.
    pub fn to_string(&self) -> (r: String)
        ensures
            r@ == self.message(),
    {
        match self {
            NtpFdwError::Parse(e) => {
                let mut out = owned("Parse error: ");
                out.append(e.to_string().as_str());
                out
            },
            NtpFdwError::OAuth2(e) => {
                let mut out = owned("OAuth2 error: ");
                out.append(e.to_string().as_str());
                out
            },
            NtpFdwError::Api(e) => {
                let mut out = owned("API error: ");
                out.append(e.to_string().as_str());
                out
            },
            NtpFdwError::Generic(m) => m.clone(),
        }
    }
}

impl From<ParseError> for NtpFdwError {
    fn from(err: ParseError) -> (r: Self)
        ensures
            r == NtpFdwError::Parse(err),
    {
        NtpFdwError::Parse(err)
    }
}

impl vstd::std_specs::convert::FromSpecImpl<ParseError> for NtpFdwError {
    open spec fn obeys_from_spec() -> bool {
        true
    }

    open spec fn from_spec(v: ParseError) -> Self {
        NtpFdwError::Parse(v)
    }
}

impl From<OAuth2Error> for NtpFdwError {
    fn from(err: OAuth2Error) -> (r: Self)
        ensures
            r == NtpFdwError::OAuth2(err),
    {
        NtpFdwError::OAuth2(err)
    }
}

impl vstd::std_specs::convert::FromSpecImpl<OAuth2Error> for NtpFdwError {
    open spec fn obeys_from_spec() -> bool {
        true
    }

    open spec fn from_spec(v: OAuth2Error) -> Self {
        NtpFdwError::OAuth2(v)
    }
}

impl From<ApiError> for NtpFdwError {
    fn from(err: ApiError) -> (r: Self)
        ensures
            r == NtpFdwError::Api(err),
    {
        NtpFdwError::Api(err)
    }
}

impl vstd::std_specs::convert::FromSpecImpl<ApiError> for NtpFdwError {
    open spec fn obeys_from_spec() -> bool {
        true
    }

    open spec fn from_spec(v: ApiError) -> Self {
        NtpFdwError::Api(v)
    }
}

impl From<String> for NtpFdwError {
    fn from(msg: String) -> (r: Self)
        ensures
            r == NtpFdwError::Generic(msg),
    {
        NtpFdwError::Generic(msg)
    }
}

impl vstd::std_specs::convert::FromSpecImpl<String> for NtpFdwError {
    open spec fn obeys_from_spec() -> bool {
        true
    }

    open spec fn from_spec(v: String) -> Self {
        NtpFdwError::Generic(v)
    }
}

} // verus!
