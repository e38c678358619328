//! Timestamp texts of the remote payloads: German and ISO dates with
//! `HH:MM` times, RFC 3339 instants, and interval lengths, all normalised to
//! `YYYY-MM-DDTHH:MM:SSZ`.
use crate::calendar::{
    date_of_number, date_text, date_to_text, day_in_range, days_in_month, lemma_date_of_own_number, parse_date_text, parse_rfc3339_micros,
    parsed_calendar_date, rfc3339_micros, shift_date, CalendarDate,
};
use crate::error::{NtpFdwError, ParseError};
use crate::row_filter::GridStatusRow;
use crate::text::{dec_digits, fixed_digits, owned, push_char, push_decimal, push_fixed, same_text};
use crate::transformations::{is_grid_status, validate_grid_status};
use chrono::{Datelike, Timelike};
use vstd::prelude::*;

verus! {

/// What the `%d.%m.%Y` date parser reads from a text.
pub uninterp spec fn parsed_dmy(s: Seq<char>) -> Option<(int, int, int)>;

/// What the `%H:%M` time parser reads from a text.
pub uninterp spec fn parsed_hm(s: Seq<char>) -> Option<(int, int)>;

/// What the `%d.%m.%Y %H:%M` date-time parser reads from a text.
pub uninterp spec fn parsed_dmy_hm(s: Seq<char>) -> Option<(int, int, int, int, int)>;

/// `YYYY-MM-DDTHH:MM:SSZ` text of an RFC 3339 instant taken to UTC.
pub uninterp spec fn rfc3339_utc_text(s: Seq<char>) -> Option<Seq<char>>;

/// `YYYY-MM-DDTHH:MM:SSZ` text of a `YYYY-MM-DDTHH:MM:SS` text read as UTC.
pub uninterp spec fn naive_utc_text(s: Seq<char>) -> Option<Seq<char>>;

/// Whole minutes from the first RFC 3339 instant to the second, rounded toward zero.
pub uninterp spec fn rfc3339_span_minutes(start: Seq<char>, end: Seq<char>) -> Option<i64>;

pub open spec fn dmy_calendar_date(s: Seq<char>) -> Option<CalendarDate> {
    match parsed_dmy(s) {
        Some((y, m, d)) => Some(CalendarDate { year: y as i32, month: m as u32, day: d as u32 }),
        None => None,
    }
}

/// Relies on chrono's `NaiveDate::parse_from_str` with `%d.%m.%Y`; a parsed
/// `NaiveDate` holds a valid date within the library's year range.
#[verifier::external_body]
fn parse_dmy(s: &str) -> (r: Option<CalendarDate>)
    ensures
        r == dmy_calendar_date(s@),
        r matches Some(d) ==> d.valid() && parsed_dmy(s@) == Some(
            (d.year as int, d.month as int, d.day as int),
        ),
{
    chrono::NaiveDate::parse_from_str(s, "%d.%m.%Y").ok().map(
        |d| CalendarDate { year: d.year(), month: d.month(), day: d.day() },
    )
}

/// Relies on chrono's `NaiveTime::parse_from_str` with `%H:%M`: hour below
/// 24 and minute below 60.
#[verifier::external_body]
fn parse_hm(s: &str) -> (r: Option<(u32, u32)>)
    ensures
        match r {
            Some((h, m)) => h < 24 && m < 60 && parsed_hm(s@) == Some((h as int, m as int)),
            None => parsed_hm(s@) is None,
        },
{
    chrono::NaiveTime::parse_from_str(s, "%H:%M").ok().map(|t| (t.hour(), t.minute()))
}

/// Relies on chrono's `NaiveDateTime::parse_from_str` with `%d.%m.%Y %H:%M`.
#[verifier::external_body]
fn parse_dmy_hm(s: &str) -> (r: Option<(CalendarDate, u32, u32)>)
    ensures
        match r {
            Some((d, h, m)) => d.valid() && h < 24 && m < 60 && parsed_dmy_hm(s@) == Some(
                (d.year as int, d.month as int, d.day as int, h as int, m as int),
            ),
            None => parsed_dmy_hm(s@) is None,
        },
{
    chrono::NaiveDateTime::parse_from_str(s, "%d.%m.%Y %H:%M").ok().map(
        |t| (CalendarDate { year: t.year(), month: t.month(), day: t.day() }, t.hour(), t.minute()),
    )
}

/// Relies on chrono's `DateTime::parse_from_rfc3339`, `with_timezone(&Utc)`
/// and `format("%Y-%m-%dT%H:%M:%SZ")`.
#[verifier::external_body]
fn rfc3339_to_utc_text(s: &str) -> (r: Option<String>)
    ensures
        match r {
            Some(t) => rfc3339_utc_text(s@) == Some(t@),
            None => rfc3339_utc_text(s@) is None,
        },
{
    chrono::DateTime::parse_from_rfc3339(s).ok().map(
        |t| t.with_timezone(&chrono::Utc).format("%Y-%m-%dT%H:%M:%SZ").to_string(),
    )
}

/// Relies on chrono's `NaiveDateTime::parse_from_str` with
/// `%Y-%m-%dT%H:%M:%S` and `format("%Y-%m-%dT%H:%M:%SZ")`; the error is the
/// parser's message.
#[verifier::external_body]
fn naive_to_utc_text(s: &str) -> (r: Result<String, String>)
    ensures
        match r {
            Ok(t) => naive_utc_text(s@) == Some(t@),
            Err(_) => naive_utc_text(s@) is None,
        },
{
    chrono::NaiveDateTime::parse_from_str(s, "%Y-%m-%dT%H:%M:%S").map(
        |t| t.and_utc().format("%Y-%m-%dT%H:%M:%SZ").to_string(),
    ).map_err(|e| e.to_string())
}

/// Relies on chrono's `DateTime::parse_from_rfc3339`,
/// `signed_duration_since` and `TimeDelta::num_minutes`; `None` when either
/// text does not parse.
#[verifier::external_body]
fn span_minutes(start: &str, end: &str) -> (r: Option<i64>)
    ensures
        r == rfc3339_span_minutes(start@, end@),
        rfc3339_micros(start@) is Some && rfc3339_micros(end@) is Some ==> r is Some,
{
    match (chrono::DateTime::parse_from_rfc3339(start), chrono::DateTime::parse_from_rfc3339(end)) {
        (Ok(a), Ok(b)) => Some(b.signed_duration_since(a).num_minutes()),
        _ => None,
    }
}

/// A German `DD.MM.YYYY` date, or else an ISO `YYYY-MM-DD` one.
pub open spec fn payload_date(s: Seq<char>) -> Option<CalendarDate> {
    if dmy_calendar_date(s) is Some {
        dmy_calendar_date(s)
    } else {
        parsed_calendar_date(s)
    }
}

/// `YYYY-MM-DDTHH:MM:00Z`
pub open spec fn timestamp_text(d: CalendarDate, h: int, m: int) -> Seq<char> {
    date_text(d) + seq!['T'] + fixed_digits(h as nat, 2) + seq![':'] + fixed_digits(m as nat, 2)
        + ":00Z"@
}

fn read_payload_date(s: &str) -> (r: Option<CalendarDate>)
    ensures
        r == payload_date(s@),
        r matches Some(d) ==> d.valid(),
{
    match parse_dmy(s) {
        Some(d) => Some(d),
        None => parse_date_text(s),
    }
}

fn write_timestamp(d: &CalendarDate, h: u32, m: u32) -> (r: String)
    requires
        d.valid(),
    ensures
        r@ == timestamp_text(*d, h as int, m as int),
{
    let mut out = date_to_text(d);
    push_char(&mut out, 'T');
    push_fixed(&mut out, h as u64, 2);
    push_char(&mut out, ':');
    push_fixed(&mut out, m as u64, 2);
    out.append(":00Z");
    out
}

fn is_utc(tz: &str) -> (r: bool)
    ensures
        r == (tz@ == "UTC"@),
{
    same_text(tz, "UTC")
}

/// Date (German or ISO) and `HH:MM` time in UTC as an ISO 8601 timestamp.
pub fn parse_timestamp(datum: &str, zeit: &str, timezone: &str) -> (r: Result<String, ParseError>)
    ensures
        timezone@ != "UTC"@ ==> (r matches Err(ParseError::InvalidTimezone(t)) && t@ == timezone@),
        timezone@ == "UTC"@ ==> match (payload_date(datum@), parsed_hm(zeit@)) {
            (Some(d), Some((h, m))) => r matches Ok(v) && v@ == timestamp_text(d, h, m),
            _ => r matches Err(ParseError::InvalidTimestamp(v)) && v@ == datum@ + " "@ + zeit@,
        },
{
    if !is_utc(timezone) {
        return Err(ParseError::InvalidTimezone(owned(timezone)));
    }
    let date = read_payload_date(datum);
    let time = parse_hm(zeit);
    match (date, time) {
        (Some(d), Some((h, m))) => Ok(write_timestamp(&d, h, m)),
        _ => {
            let mut v = owned(datum);
            v.append(" ");
            v.append(zeit);
            Err(ParseError::InvalidTimestamp(v))
        },
    }
}

/// (hour, minute) `b` is not after `a`.
pub open spec fn time_not_after(b: (int, int), a: (int, int)) -> bool {
    b.0 < a.0 || (b.0 == a.0 && b.1 <= a.1)
}

/// Start and end timestamps of an interval given as a date and two `HH:MM`
/// times; an end time not after the start time falls on the next day.
pub fn parse_interval_timestamps(
    datum: &str,
    von: &str,
    bis: &str,
    tz_von: &str,
    tz_bis: &str,
) -> (r: Result<(String, String), ParseError>)
    ensures
        !(tz_von@ == "UTC"@ && tz_bis@ == "UTC"@) ==> (r matches Err(
            ParseError::InvalidTimezone(_),
        )),
        tz_von@ == "UTC"@ && tz_bis@ == "UTC"@ ==> match (
            parsed_hm(von@),
            parsed_hm(bis@),
            payload_date(datum@),
        ) {
            (Some(a), Some(b), Some(d)) => if !time_not_after(b, a) {
                r matches Ok((s, e)) && s@ == timestamp_text(d, a.0, a.1) && e@ == timestamp_text(
                    d,
                    b.0,
                    b.1,
                )
            } else if day_in_range(d.day_number() + 1) {
                r matches Ok((s, e)) && s@ == timestamp_text(d, a.0, a.1) && e@ == timestamp_text(
                    date_of_number(d.day_number() + 1),
                    b.0,
                    b.1,
                )
            } else {
                r matches Err(ParseError::InvalidTimestamp(_))
            },
            _ => r matches Err(ParseError::InvalidTimestamp(_)),
        },
{
    if !is_utc(tz_von) || !is_utc(tz_bis) {
        let mut msg = owned("Expected UTC, got von=");
        msg.append(tz_von);
        msg.append(", bis=");
        msg.append(tz_bis);
        return Err(ParseError::InvalidTimezone(msg));
    }
    let (sh, sm) = match parse_hm(von) {
        Some(t) => t,
        None => {
            let mut msg = owned("Invalid time: ");
            msg.append(von);
            return Err(ParseError::InvalidTimestamp(msg));
        },
    };
    let (eh, em) = match parse_hm(bis) {
        Some(t) => t,
        None => {
            let mut msg = owned("Invalid time: ");
            msg.append(bis);
            return Err(ParseError::InvalidTimestamp(msg));
        },
    };
    let base = match read_payload_date(datum) {
        Some(d) => d,
        None => {
            let mut msg = owned("Invalid date: ");
            msg.append(datum);
            return Err(ParseError::InvalidTimestamp(msg));
        },
    };
    let start = write_timestamp(&base, sh, sm);
    let end_date = if eh < sh || (eh == sh && em <= sm) {
        match shift_date(&base, 1) {
            Some(d) => {
                proof {
                    lemma_date_of_own_number(d);
                }
                d
            },
            None => {
                let mut msg = owned("Invalid date: ");
                msg.append(datum);
                return Err(ParseError::InvalidTimestamp(msg));
            },
        }
    } else {
        base
    };
    let end = write_timestamp(&end_date, eh, em);
    Ok((start, end))
}

/// Redispatch date (`DD.MM.YYYY`) and time (`HH:MM`) in UTC as an ISO 8601
/// timestamp.
pub fn parse_redispatch_timestamp(datum: &str, uhrzeit: &str, zeitzone: &str) -> (r: Result<
    String,
    ParseError,
>)
    ensures
        zeitzone@ != "UTC"@ ==> (r matches Err(ParseError::InvalidTimezone(t)) && t@ == zeitzone@),
        zeitzone@ == "UTC"@ ==> match parsed_dmy_hm(datum@ + " "@ + uhrzeit@) {
            Some((y, mo, d, h, mi)) => r matches Ok(v) && v@ == timestamp_text(
                CalendarDate { year: y as i32, month: mo as u32, day: d as u32 },
                h,
                mi,
            ),
            None => r matches Err(ParseError::InvalidTimestamp(v)) && v@ == datum@ + " "@
                + uhrzeit@,
        },
{
    if !is_utc(zeitzone) {
        return Err(ParseError::InvalidTimezone(owned(zeitzone)));
    }
    let mut dt = owned(datum);
    dt.append(" ");
    dt.append(uhrzeit);
    match parse_dmy_hm(dt.as_str()) {
        Some((d, h, m)) => Ok(write_timestamp(&d, h, m)),
        None => Err(ParseError::InvalidTimestamp(dt)),
    }
}

/// An ISO 8601 timestamp normalised to UTC with a `Z` suffix; one without
/// an offset is read as UTC.
pub fn parse_iso8601_timestamp(iso_string: &str) -> (r: Result<String, ParseError>)
    ensures
        match rfc3339_utc_text(iso_string@) {
            Some(t) => r matches Ok(v) && v@ == t,
            None => match naive_utc_text(iso_string@) {
                Some(t) => r matches Ok(v) && v@ == t,
                None => r matches Err(ParseError::InvalidTimestamp(_)),
            },
        },
{
    if let Some(t) = rfc3339_to_utc_text(iso_string) {
        return Ok(t);
    }
    match naive_to_utc_text(iso_string) {
        Ok(t) => Ok(t),
        Err(e) => {
            let mut msg = owned(iso_string);
            msg.append(
                " (expected ISO 8601 format 'YYYY-MM-DDTHH:MM:SS' with optional 'Z' suffix. Parse error: ",
            );
            msg.append(e.as_str());
            msg.append(")");
            Err(ParseError::InvalidTimestamp(msg))
        },
    }
}

/// Decimal text of an integer, with a leading `-` when negative.
pub open spec fn signed_text(v: int) -> Seq<char> {
    if v < 0 {
        seq!['-'] + dec_digits((-v) as nat)
    } else {
        dec_digits(v as nat)
    }
}

fn push_signed(out: &mut String, v: i64)
    ensures
        final(out)@ == old(out)@ + signed_text(v as int),
{
    if v < 0 {
        push_char(out, '-');
        let a: u64 = (-(v + 1)) as u64 + 1;
        push_decimal(out, a);
    } else {
        push_decimal(out, v as u64);
    }
    assert(final(out)@ =~= old(out)@ + signed_text(v as int));
}

/// Length in minutes of an interval between two RFC 3339 instants.
///
/// Fails when either end does not parse or the length does not fit an `i16`.
pub fn calculate_interval_minutes(start: &str, end: &str) -> (r: Result<i16, ParseError>)
    ensures
        rfc3339_micros(start@) is None ==> (r matches Err(ParseError::InvalidTimestamp(v)) && v@
            == start@),
        rfc3339_micros(start@) is Some && rfc3339_micros(end@) is None ==> (r matches Err(
            ParseError::InvalidTimestamp(v),
        ) && v@ == end@),
        rfc3339_micros(start@) is Some && rfc3339_micros(end@) is Some ==> match rfc3339_span_minutes(
            start@,
            end@,
        ) {
            Some(m) => if i16::MIN <= m <= i16::MAX {
                r == Ok::<i16, ParseError>(m as i16)
            } else {
                r matches Err(ParseError::InvalidTimestamp(_))
            },
            None => false,
        },
{
    if parse_rfc3339_micros(start).is_none() {
        return Err(ParseError::InvalidTimestamp(owned(start)));
    }
    if parse_rfc3339_micros(end).is_none() {
        return Err(ParseError::InvalidTimestamp(owned(end)));
    }
    let minutes = match span_minutes(start, end) {
        Some(m) => m,
        None => return Err(ParseError::InvalidTimestamp(owned(start))),
    };
    if minutes < i16::MIN as i64 || minutes > i16::MAX as i64 {
        let mut msg = owned("Interval too large: ");
        push_signed(&mut msg, minutes);
        msg.append(" minutes (max: 32767 minutes / ~22 days). Start: ");
        msg.append(start);
        msg.append(", End: ");
        msg.append(end);
        return Err(ParseError::InvalidTimestamp(msg));
    }
    Ok(minutes as i16)
}

/// One grid-status row from a traffic-light record (`From`, `To`, `Value`).
pub fn grid_status_row_from_record(from: &str, to: &str, value: &str) -> (r: Result<
    GridStatusRow,
    NtpFdwError,
>)
    ensures
        match (parse_iso8601_outcome(from@), parse_iso8601_outcome(to@)) {
            (Some(a), Some(b)) => if is_grid_status(value@) {
                r matches Ok(row) && row.timestamp_utc@ == a && row.interval_end_utc@ == b
                    && row.grid_status@ == value@ && row.source_endpoint@ == "TrafficLight"@
            } else {
                r matches Err(NtpFdwError::Parse(ParseError::InvalidGridStatus(_)))
            },
            _ => r matches Err(NtpFdwError::Parse(ParseError::InvalidTimestamp(_))),
        },
{
    let timestamp_utc = match parse_iso8601_timestamp(from) {
        Ok(t) => t,
        Err(e) => return Err(NtpFdwError::Parse(e)),
    };
    let interval_end_utc = match parse_iso8601_timestamp(to) {
        Ok(t) => t,
        Err(e) => return Err(NtpFdwError::Parse(e)),
    };
    let grid_status = match validate_grid_status(value) {
        Ok(v) => v,
        Err(e) => return Err(NtpFdwError::Parse(e)),
    };
    Ok(
        GridStatusRow {
            timestamp_utc,
            interval_end_utc,
            grid_status,
            source_endpoint: owned("TrafficLight"),
        },
    )
}

/// The normalised text of an ISO 8601 timestamp, or `None` when it does not parse.
pub open spec fn parse_iso8601_outcome(s: Seq<char>) -> Option<Seq<char>> {
    match rfc3339_utc_text(s) {
        Some(t) => Some(t),
        None => naive_utc_text(s),
    }
}

/// A year as `{:04}` writes it: zero padded to four characters, sign included.
pub open spec fn padded_year(y: int) -> Seq<char> {
    if y >= 0 {
        if y < 10000 {
            fixed_digits(y as nat, 4)
        } else {
            dec_digits(y as nat)
        }
    } else if -y < 1000 {
        seq!['-'] + fixed_digits((-y) as nat, 3)
    } else {
        seq!['-'] + dec_digits((-y) as nat)
    }
}

fn push_padded_year(out: &mut String, y: i32)
    ensures
        final(out)@ == old(out)@ + padded_year(y as int),
{
    if y >= 0 {
        if y < 10000 {
            push_fixed(out, y as u64, 4);
        } else {
            push_decimal(out, y as u64);
        }
    } else if y > -1000 {
        push_char(out, '-');
        push_fixed(out, (-y) as u64, 3);
    } else {
        push_char(out, '-');
        let a: u64 = (-(y as i64)) as u64;
        push_decimal(out, a);
    }
    assert(final(out)@ =~= old(out)@ + padded_year(y as int));
}

/// First and last second of a calendar month, as ISO 8601 timestamps.
pub fn month_bounds(year: i32, month: u32) -> (r: Result<(String, String), ParseError>)
    ensures
        !(1 <= month <= 12) ==> (r matches Err(ParseError::InvalidTimestamp(_))),
        1 <= month <= 12 ==> (r matches Ok((s, e)) && s@ == padded_year(year as int) + seq!['-']
            + fixed_digits(month as nat, 2) + "-01T00:00:00Z"@ && e@ == padded_year(year as int)
            + seq!['-'] + fixed_digits(month as nat, 2) + seq!['-'] + fixed_digits(
            days_in_month(year as int, month as int) as nat,
            2,
        ) + "T23:59:59Z"@),
{
    if month < 1 || month > 12 {
        let mut msg = owned("Month out of range: ");
        push_decimal(&mut msg, month as u64);
        msg.append(" (must be 1-12)");
        return Err(ParseError::InvalidTimestamp(msg));
    }
    let last_day: u64 = if month == 2 {
        if (year % 4 == 0 && year % 100 != 0) || year % 400 == 0 {
            29
        } else {
            28
        }
    } else if month == 4 || month == 6 || month == 9 || month == 11 {
        30
    } else {
        31
    };
    let mut start = String::new();
    push_padded_year(&mut start, year);
    push_char(&mut start, '-');
    push_fixed(&mut start, month as u64, 2);
    start.append("-01T00:00:00Z");
    let mut end = String::new();
    push_padded_year(&mut end, year);
    push_char(&mut end, '-');
    push_fixed(&mut end, month as u64, 2);
    push_char(&mut end, '-');
    push_fixed(&mut end, last_day, 2);
    end.append("T23:59:59Z");
    Ok((start, end))
}

} // verus!
