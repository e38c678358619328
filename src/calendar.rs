//! Calendar dates of the proleptic Gregorian calendar, their `YYYY-MM-DD`
//! text and the day arithmetic used to widen remote date windows.
use crate::text::{fixed_digits, dec_digits, push_char, push_decimal, push_fixed};
use chrono::Datelike;
use vstd::prelude::*;
use vstd::utf8::encode_utf8;

verus! {

/// Earliest year that the date library represents.
pub const MIN_YEAR: i32 = -262143;

/// Latest year that the date library represents.
pub const MAX_YEAR: i32 = 262142;

/// A calendar date held as plain values.
#[derive(Debug, Clone, Copy, PartialEq, Eq, Structural)]
pub struct CalendarDate {
    pub year: i32,
    pub month: u32,
    pub day: u32,
}

pub open spec fn is_leap_year(y: int) -> bool {
    (y % 4 == 0 && y % 100 != 0) || y % 400 == 0
}

pub open spec fn days_in_month(y: int, m: int) -> int {
    if m == 2 {
        if is_leap_year(y) {
            29
        } else {
            28
        }
    } else if m == 4 || m == 6 || m == 9 || m == 11 {
        30
    } else {
        31
    }
}

/// Days of the years before `y`, counted from the start of year 1.
pub open spec fn days_before_year(y: int) -> int {
    let p = y - 1;
    365 * p + p / 4 - p / 100 + p / 400
}

/// Days of the months of year `y` before month `m`.
pub open spec fn days_before_month(y: int, m: int) -> int
    decreases m,
{
    if m <= 1 {
        0
    } else {
        days_before_month(y, m - 1) + days_in_month(y, m - 1)
    }
}

/// Ordinal day number; 0001-01-01 is day 1.
pub open spec fn ymd_day_number(y: int, m: int, d: int) -> int {
    days_before_year(y) + days_before_month(y, m) + d
}

pub open spec fn first_day_number() -> int {
    ymd_day_number(MIN_YEAR as int, 1, 1)
}

pub open spec fn last_day_number() -> int {
    ymd_day_number(MAX_YEAR as int, 12, 31)
}

/// Day number of 1970-01-01.
pub open spec fn unix_epoch_day_number() -> int {
    ymd_day_number(1970, 1, 1)
}

/// A day number that the date library can represent.
pub open spec fn day_in_range(n: int) -> bool {
    first_day_number() <= n <= last_day_number()
}

impl CalendarDate {
    pub open spec fn valid(&self) -> bool {
        &&& MIN_YEAR <= self.year <= MAX_YEAR
        &&& 1 <= self.month <= 12
        &&& 1 <= self.day <= days_in_month(self.year as int, self.month as int)
    }

    pub open spec fn day_number(&self) -> int {
        ymd_day_number(self.year as int, self.month as int, self.day as int)
    }
}

/// Year as `%Y` writes it: four digits, with a sign outside 0..=9999.
pub open spec fn year_text(y: int) -> Seq<char> {
    if 0 <= y < 10000 {
        fixed_digits(y as nat, 4)
    } else if y >= 10000 {
        seq!['+'] + dec_digits(y as nat)
    } else if -y < 10000 {
        seq!['-'] + fixed_digits((-y) as nat, 4)
    } else {
        seq!['-'] + dec_digits((-y) as nat)
    }
}

proof fn lemma_month_days_positive(y: int, m: int)
    ensures
        days_in_month(y, m) >= 28,
{
}

proof fn lemma_days_before_month_nonneg(y: int, m: int)
    ensures
        days_before_month(y, m) >= 0,
    decreases m,
{
    if m > 1 {
        lemma_days_before_month_nonneg(y, m - 1);
        lemma_month_days_positive(y, m - 1);
    }
}

proof fn lemma_days_before_month_grows(y: int, m1: int, m2: int)
    requires
        1 <= m1 < m2,
    ensures
        days_before_month(y, m1) + days_in_month(y, m1) <= days_before_month(y, m2),
    decreases m2,
{
    if m2 > m1 + 1 {
        lemma_days_before_month_grows(y, m1, m2 - 1);
        lemma_month_days_positive(y, m2 - 1);
    }
}

proof fn lemma_year_length(y: int)
    ensures
        days_before_month(y, 13) == if is_leap_year(y) {
            366int
        } else {
            365int
        },
{
    assert(days_before_month(y, 1) == 0);
    assert(days_before_month(y, 2) == 31);
    assert(days_before_month(y, 3) == 31 + days_in_month(y, 2));
    assert(days_before_month(y, 4) == days_before_month(y, 3) + 31);
    assert(days_before_month(y, 5) == days_before_month(y, 4) + 30);
    assert(days_before_month(y, 6) == days_before_month(y, 5) + 31);
    assert(days_before_month(y, 7) == days_before_month(y, 6) + 30);
    assert(days_before_month(y, 8) == days_before_month(y, 7) + 31);
    assert(days_before_month(y, 9) == days_before_month(y, 8) + 31);
    assert(days_before_month(y, 10) == days_before_month(y, 9) + 30);
    assert(days_before_month(y, 11) == days_before_month(y, 10) + 31);
    assert(days_before_month(y, 12) == days_before_month(y, 11) + 30);
    assert(days_before_month(y, 13) == days_before_month(y, 12) + 31);
}

proof fn lemma_next_year(y: int)
    ensures
        days_before_year(y + 1) == days_before_year(y) + days_before_month(y, 13),
{
    lemma_year_length(y);
    let p = y - 1;
    assert(y / 4 == p / 4 + (if y % 4 == 0 { 1int } else { 0int }));
    assert(y / 100 == p / 100 + (if y % 100 == 0 { 1int } else { 0int }));
    assert(y / 400 == p / 400 + (if y % 400 == 0 { 1int } else { 0int }));
}

proof fn lemma_years_grow(y1: int, y2: int)
    requires
        y1 < y2,
    ensures
        days_before_year(y1) + days_before_month(y1, 13) <= days_before_year(y2),
    decreases y2 - y1,
{
    lemma_next_year(y1);
    if y2 > y1 + 1 {
        lemma_years_grow(y1 + 1, y2);
        lemma_days_before_month_nonneg(y1 + 1, 13);
    }
}

/// A valid date ends no later than the last day of its year.
proof fn lemma_within_year(d: CalendarDate)
    requires
        d.valid(),
    ensures
        days_before_month(d.year as int, d.month as int) + d.day <= days_before_month(
            d.year as int,
            13,
        ),
{
    if d.month < 12 {
        lemma_days_before_month_grows(d.year as int, d.month as int, 13);
    }
}

/// Later dates have larger day numbers.
pub proof fn lemma_day_number_increases(a: CalendarDate, b: CalendarDate)
    requires
        a.valid(),
        b.valid(),
        a.year < b.year || (a.year == b.year && (a.month < b.month || (a.month == b.month && a.day
            < b.day))),
    ensures
        a.day_number() < b.day_number(),
{
    let (ya, yb) = (a.year as int, b.year as int);
    lemma_days_before_month_nonneg(yb, b.month as int);
    if a.year < b.year {
        lemma_within_year(a);
        lemma_years_grow(ya, yb);
    } else if a.month < b.month {
        lemma_days_before_month_grows(ya, a.month as int, b.month as int);
    }
}

/// Two valid dates with the same day number are the same date.
pub proof fn lemma_day_number_injective(a: CalendarDate, b: CalendarDate)
    requires
        a.valid(),
        b.valid(),
        a.day_number() == b.day_number(),
    ensures
        a == b,
{
    if a.year < b.year || (a.year == b.year && (a.month < b.month || (a.month == b.month && a.day
        < b.day))) {
        lemma_day_number_increases(a, b);
    } else if b.year < a.year || (a.year == b.year && (b.month < a.month || (a.month == b.month
        && b.day < a.day))) {
        lemma_day_number_increases(b, a);
    }
}

/// The representable day numbers lie well within the range of an `i32`.
pub proof fn lemma_range_width()
    ensures
        -200_000_000 < first_day_number(),
        last_day_number() < 200_000_000,
{
    lemma_year_length(MAX_YEAR as int);
    assert(days_before_month(MAX_YEAR as int, 12) == days_before_month(MAX_YEAR as int, 13) - 31);
    assert(days_before_month(MIN_YEAR as int, 1) == 0);
}

/// Every valid date has a representable day number.
pub proof fn lemma_valid_in_range(d: CalendarDate)
    requires
        d.valid(),
    ensures
        day_in_range(d.day_number()),
{
    let lo = CalendarDate { year: MIN_YEAR, month: 1, day: 1 };
    let hi = CalendarDate { year: MAX_YEAR, month: 12, day: 31 };
    if d != lo {
        lemma_day_number_increases(lo, d);
    }
    if d != hi {
        lemma_day_number_increases(d, hi);
    }
}

/// A valid date is the date of its own day number.
pub proof fn lemma_date_of_own_number(x: CalendarDate)
    requires
        x.valid(),
    ensures
        date_of_number(x.day_number()) == x,
{
    let c = date_of_number(x.day_number());
    assert(c.valid() && c.day_number() == x.day_number());
    lemma_day_number_injective(c, x);
}

/// `YYYY-MM-DD` text of a date.
pub open spec fn date_text(d: CalendarDate) -> Seq<char> {
    year_text(d.year as int) + seq!['-'] + fixed_digits(d.month as nat, 2) + seq!['-']
        + fixed_digits(d.day as nat, 2)
}

/// What the date parser reads from a text, as (year, month, day).
pub uninterp spec fn parsed_date(s: Seq<char>) -> Option<(int, int, int)>;

/// Microseconds since the epoch that the RFC 3339 parser reads from a text.
pub uninterp spec fn rfc3339_micros(s: Seq<char>) -> Option<i64>;

/// The date that a text parses to, with the parser's result as a `CalendarDate`.
pub open spec fn parsed_calendar_date(s: Seq<char>) -> Option<CalendarDate> {
    match parsed_date(s) {
        Some((y, m, d)) => Some(CalendarDate { year: y as i32, month: m as u32, day: d as u32 }),
        None => None,
    }
}

/// The valid date with day number `n`; each day number in range has exactly one.
pub open spec fn date_of_number(n: int) -> CalendarDate {
    choose|x: CalendarDate| x.valid() && x.day_number() == n
}

/// Text of the date `days` days after the date that `s` parses to; `None`
/// when `s` is no date or the result leaves the representable range.
pub open spec fn shifted_text(s: Seq<char>, days: int) -> Option<Seq<char>> {
    match parsed_calendar_date(s) {
        Some(d) => if day_in_range(d.day_number() + days) {
            Some(date_text(date_of_number(d.day_number() + days)))
        } else {
            None
        },
        None => None,
    }
}

/// Rust's `/` on integers: the quotient rounded toward zero.
pub open spec fn trunc_div(a: int, b: int) -> int {
    if a >= 0 {
        a / b
    } else {
        -((-a) / b)
    }
}

/// Day number of the UTC date of a microsecond timestamp, whole seconds only.
pub open spec fn micros_day_number(micros: int) -> int {
    unix_epoch_day_number() + trunc_div(micros, 1_000_000) / 86400
}

/// `YYYY-MM-DD` text of the UTC date of a microsecond timestamp; `None`
/// outside the representable range.
pub open spec fn micros_date_text(micros: int) -> Option<Seq<char>> {
    if day_in_range(micros_day_number(micros)) {
        Some(date_text(date_of_number(micros_day_number(micros))))
    } else {
        None
    }
}

/// Microseconds since the epoch of the midnight that starts date `d`.
pub open spec fn midnight_micros_of(d: CalendarDate) -> int {
    (d.day_number() - unix_epoch_day_number()) * 86_400_000_000
}

/// Relies on chrono's `NaiveDate::parse_from_str` with `%Y-%m-%d`; a parsed
/// `NaiveDate` always holds a valid date within the library's year range.
#[verifier::external_body]
pub(crate) fn parse_date_text(s: &str) -> (r: Option<CalendarDate>)
    ensures
        r == parsed_calendar_date(s@),
        r matches Some(d) ==> d.valid() && parsed_date(s@) == Some(
            (d.year as int, d.month as int, d.day as int),
        ),
{
    chrono::NaiveDate::parse_from_str(s, "%Y-%m-%d").ok().map(
        |d| CalendarDate { year: d.year(), month: d.month(), day: d.day() },
    )
}

/// Relies on chrono's `NaiveDate::checked_add_signed`: the date moved by whole
/// days, or `None` when the result leaves the representable range.
#[verifier::external_body]
pub(crate) fn shift_date(d: &CalendarDate, days: i64) -> (r: Option<CalendarDate>)
    requires
        d.valid(),
        i32::MIN <= days <= i32::MAX,
    ensures
        r is Some <==> day_in_range(d.day_number() + days),
        r matches Some(x) ==> x.valid() && x.day_number() == d.day_number() + days,
{
    chrono::NaiveDate::from_ymd_opt(d.year, d.month, d.day).and_then(
        |n| n.checked_add_signed(chrono::TimeDelta::days(days)),
    ).map(|x| CalendarDate { year: x.year(), month: x.month(), day: x.day() })
}

/// Relies on chrono's `DateTime::from_timestamp`: the UTC date of a count of
/// seconds since the epoch, or `None` outside the representable range.
#[verifier::external_body]
fn date_of_unix_seconds(secs: i64) -> (r: Option<CalendarDate>)
    ensures
        r is Some <==> day_in_range(unix_epoch_day_number() + secs / 86400),
        r matches Some(x) ==> x.valid() && x.day_number() == unix_epoch_day_number() + secs
            / 86400,
{
    chrono::DateTime::from_timestamp(secs, 0).map(
        |t| CalendarDate { year: t.year(), month: t.month(), day: t.day() },
    )
}

/// Relies on chrono's `DateTime::parse_from_rfc3339` and `timestamp_micros`.
#[verifier::external_body]
pub fn parse_rfc3339_micros(s: &str) -> (r: Option<i64>)
    ensures
        r == rfc3339_micros(s@),
{
    chrono::DateTime::parse_from_rfc3339(s).ok().map(|t| t.timestamp_micros())
}

/// Relies on chrono's `NaiveDate::and_hms_opt` and `timestamp_micros`: the
/// first microsecond of a valid date, in UTC.
#[verifier::external_body]
fn midnight_micros(d: &CalendarDate) -> (r: Option<i64>)
    requires
        d.valid(),
    ensures
        r == Some(midnight_micros_of(*d) as i64),
{
    chrono::NaiveDate::from_ymd_opt(d.year, d.month, d.day).and_then(|n| n.and_hms_opt(0, 0, 0)).map(
        |t| t.and_utc().timestamp_micros(),
    )
}

/// Writes a date as `YYYY-MM-DD`.
pub fn date_to_text(d: &CalendarDate) -> (r: String)
    requires
        d.valid(),
    ensures
        r@ == date_text(*d),
{
    let mut out = String::new();
    let y = d.year;
    if 0 <= y && y < 10000 {
        push_fixed(&mut out, y as u64, 4);
    } else if y >= 10000 {
        push_char(&mut out, '+');
        push_decimal(&mut out, y as u64);
    } else if y > -10000 {
        push_char(&mut out, '-');
        push_fixed(&mut out, (-y) as u64, 4);
    } else {
        push_char(&mut out, '-');
        push_decimal(&mut out, (-y) as u64);
    }
    push_char(&mut out, '-');
    push_fixed(&mut out, d.month as u64, 2);
    push_char(&mut out, '-');
    push_fixed(&mut out, d.day as u64, 2);
    assert(out@ =~= date_text(*d));
    out
}

/// Moves a `YYYY-MM-DD` date by a number of days.
///
/// Fails when the text is not a date or the result leaves the representable range.
pub fn add_days_to_date(date_str: &str, days: i64) -> (r: Result<String, String>)
    ensures
        match shifted_text(date_str@, days as int) {
            Some(t) => r matches Ok(v) && v@ == t,
            None => r is Err,
        },
{
    match parse_date_text(date_str) {
        None => Err(String::from_str("Invalid date format")),
        Some(d) => {
            if days < i32::MIN as i64 || days > i32::MAX as i64 {
                proof {
                    lemma_valid_in_range(d);
                    lemma_range_width();
                }
                return Err(String::from_str("Date out of range"));
            }
            match shift_date(&d, days) {
                None => Err(String::from_str("Date out of range")),
                Some(x) => {
                    proof {
                        lemma_date_of_own_number(x);
                    }
                    Ok(date_to_text(&x))
                },
            }
        },
    }
}

/// The UTC date of a microsecond timestamp; sub-second digits are dropped
/// toward zero first, as integer division does. `None` outside the
/// representable range.
pub fn micros_to_date(micros: i64) -> (r: Option<CalendarDate>)
    ensures
        r is Some <==> day_in_range(micros_day_number(micros as int)),
        r matches Some(x) ==> x.valid() && x.day_number() == micros_day_number(micros as int),
{
    let secs: i64 = if micros >= 0 {
        micros / 1_000_000
    } else {
        let a: u64 = ((-(micros + 1)) as u64 + 1) / 1_000_000;
        -(a as i64)
    };
    assert(secs == trunc_div(micros as int, 1_000_000));
    date_of_unix_seconds(secs)
}

/// `YYYY-MM-DD` text of the UTC date of a microsecond timestamp.
///
/// Sub-second digits are dropped toward zero first, as integer division does.
pub fn micros_to_date_string(micros: i64) -> (r: Result<String, String>)
    ensures
        match micros_date_text(micros as int) {
            Some(t) => r matches Ok(v) && v@ == t,
            None => r is Err,
        },
{
    match micros_to_date(micros) {
        None => Err(String::from_str("Invalid timestamp: out of valid range")),
        Some(x) => {
            proof {
                lemma_date_of_own_number(x);
            }
            Ok(date_to_text(&x))
        },
    }
}

/// Microseconds since the epoch of a `YYYY-MM-DDTHH:MM:SS` text without an
/// offset, read as UTC.
pub uninterp spec fn naive_utc_micros(s: Seq<char>) -> Option<i64>;

/// Relies on chrono's `NaiveDateTime::parse_from_str` with `%Y-%m-%dT%H:%M:%S`,
/// `and_utc` and `timestamp_micros`.
#[verifier::external_body]
fn parse_naive_utc_micros(s: &str) -> (r: Option<i64>)
    ensures
        r == naive_utc_micros(s@),
{
    chrono::NaiveDateTime::parse_from_str(s, "%Y-%m-%dT%H:%M:%S").ok().map(
        |t| t.and_utc().timestamp_micros(),
    )
}

/// How a timestamp literal reads: its instant in microseconds, and whether
/// it carries a time of day. An RFC 3339 timestamp, or a date and time
/// without an offset taken as UTC, carries one; a bare `YYYY-MM-DD` date is
/// taken at midnight and carries none. `None` for a malformed literal.
pub open spec fn timestamp_reading(s: Seq<char>) -> Option<(i64, bool)> {
    if rfc3339_micros(s) is Some {
        Some((rfc3339_micros(s)->Some_0, true))
    } else if naive_utc_micros(s) is Some {
        Some((naive_utc_micros(s)->Some_0, true))
    } else {
        match parsed_calendar_date(s) {
            Some(d) => Some((midnight_micros_of(d) as i64, false)),
            None => None,
        }
    }
}

/// Reads a timestamp literal: its instant in microseconds, and whether it
/// carries a time of day.
pub fn read_timestamp_text(s: &str) -> (r: Option<(i64, bool)>)
    ensures
        r == timestamp_reading(s@),
{
    if let Some(v) = parse_rfc3339_micros(s) {
        return Some((v, true));
    }
    if let Some(v) = parse_naive_utc_micros(s) {
        return Some((v, true));
    }
    match parse_date_text(s) {
        Some(d) => match midnight_micros(&d) {
            Some(v) => Some((v, false)),
            None => None,
        },
        None => None,
    }
}

/// Microseconds of a timestamp text: RFC 3339, or else a date at midnight UTC.
pub open spec fn text_micros(s: Seq<char>) -> Option<i64> {
    if rfc3339_micros(s) is Some {
        rfc3339_micros(s)
    } else {
        match parsed_calendar_date(s) {
            Some(d) => Some(midnight_micros_of(d) as i64),
            None => None,
        }
    }
}

/// Reads a timestamp text as microseconds since the epoch: an RFC 3339
/// timestamp, or else a `YYYY-MM-DD` date taken at midnight UTC.
pub fn parse_string_to_micros(s: &str) -> (r: Option<i64>)
    ensures
        r == text_micros(s@),
{
    match parse_rfc3339_micros(s) {
        Some(v) => Some(v),
        None => match parse_date_text(s) {
            Some(d) => midnight_micros(&d),
            None => None,
        },
    }
}

/// The part of `s` before its first `T`, or all of `s` when it has none.
pub open spec fn before_time_mark(s: Seq<char>) -> Seq<char>
    decreases s.len(),
{
    if s.len() == 0 {
        s
    } else if s[0] == 'T' {
        seq![]
    } else {
        seq![s[0]] + before_time_mark(s.drop_first())
    }
}

proof fn lemma_before_time_mark(s: Seq<char>, i: int)
    requires
        0 <= i <= s.len(),
        forall|j: int| 0 <= j < i ==> s[j] != 'T',
        i == s.len() || s[i] == 'T',
    ensures
        before_time_mark(s) == s.take(i),
    decreases s.len(),
{
    if s.len() == 0 {
        assert(s.take(i) =~= s);
    } else if i == 0 {
        assert(s.take(0) =~= seq![]);
    } else {
        let t = s.drop_first();
        assert forall|j: int| 0 <= j < i - 1 implies t[j] != 'T' by {
            assert(t[j] == s[j + 1]);
        }
        lemma_before_time_mark(t, i - 1);
        assert(s.take(i) =~= seq![s[0]] + t.take(i - 1));
    }
}

/// Date part of a timestamp text: the text itself when its UTF-8 form is ten
/// bytes long, else what comes before its first `T`.
pub open spec fn date_component(s: Seq<char>) -> Seq<char> {
    if encode_utf8(s).len() == 10 {
        s
    } else {
        before_time_mark(s)
    }
}

/// Date part of a timestamp text: the text itself when it is ten bytes long,
/// else what comes before its first `T`.
pub fn extract_date_component(s: &str) -> (r: String)
    ensures
        r@ == date_component(s@),
{
    if s.as_bytes().len() == 10 {
        return String::from_str(s);
    }
    let n = s.unicode_len();
    let mut out = String::new();
    let mut i: usize = 0;
    while i < n
        invariant
            n == s@.len(),
            i <= n,
            out@ == s@.take(i as int),
            forall|j: int| 0 <= j < i ==> s@[j] != 'T',
        ensures
            i <= n,
            out@ == s@.take(i as int),
            forall|j: int| 0 <= j < i ==> s@[j] != 'T',
            i == n || s@[i as int] == 'T',
        decreases n - i,
    {
        let c = s.get_char(i);
        if c == 'T' {
            break;
        }
        push_char(&mut out, c);
        assert(out@ =~= s@.take(i + 1));
        i = i + 1;
    }
    proof {
        lemma_before_time_mark(s@, i as int);
    }
    out
}

} // verus!
