//! Qualifier extraction and date-window resolution.
//!
//! A scan's predicates are read into categorical filters, a day window for
//! the remote request and full-precision timestamp bounds for the fetched
//! rows.
use crate::calendar::{
    date_of_number, date_text, date_to_text, day_in_range, lemma_date_of_own_number,
    lemma_day_number_increases, lemma_day_number_injective, lemma_valid_in_range,
    micros_day_number, micros_to_date, parse_date_text, parsed_calendar_date,
    read_timestamp_text, shift_date, timestamp_reading, CalendarDate,
};
use crate::query_router::{opt_text, DateRange, QualFilters, TimestampBounds};
use crate::text::{owned, same_text};
use vstd::prelude::*;

verus! {

/// Value of a predicate: a timestamp (microseconds since the epoch), a text,
/// or anything else.
#[derive(Debug, Clone)]
pub enum QualValue {
    Timestamptz(i64),
    Text(String),
    Other,
}

/// One `(field, operator, value)` predicate of a scan.
#[derive(Debug, Clone)]
pub struct Qual {
    pub field: String,
    pub operator: String,
    pub value: QualValue,
}

/// What the predicates say, before the day window is resolved.
pub struct ScanView {
    pub product: Option<Seq<char>>,
    pub category: Option<Seq<char>>,
    pub price: Option<Seq<char>>,
    /// Day number of the window's nominal start
    pub start: Option<int>,
    /// Day number of the window's nominal end
    pub end: Option<int>,
    pub lower: Option<(i64, Seq<char>)>,
    pub upper: Option<(i64, Seq<char>)>,
    /// Some timestamp predicate carries a time of day.
    pub timed: bool,
}

pub open spec fn empty_scan() -> ScanView {
    ScanView {
        product: None,
        category: None,
        price: None,
        start: None,
        end: None,
        lower: None,
        upper: None,
        timed: false,
    }
}

/// A timestamp predicate with operator `op` at instant `micros`, whose UTC
/// date has day number `day`; `timed` when its literal carries a time of day.
pub open spec fn with_timestamp(
    st: ScanView,
    op: Seq<char>,
    day: int,
    micros: i64,
    timed: bool,
) -> ScanView {
    if op == ">="@ || op == ">"@ {
        ScanView { start: Some(day), lower: Some((micros, op)), timed: st.timed || timed, ..st }
    } else if op == "<"@ || op == "<="@ {
        ScanView { end: Some(day), upper: Some((micros, op)), timed: st.timed || timed, ..st }
    } else if op == "="@ {
        ScanView {
            start: Some(day),
            end: Some(day),
            lower: Some((micros, ">="@)),
            upper: Some((micros, "<="@)),
            timed: st.timed || timed,
            ..st
        }
    } else {
        st
    }
}

/// An equality predicate on a categorical field, read as its text value.
pub open spec fn equality_text(q: Qual) -> Option<Seq<char>> {
    if q.operator@ == "="@ {
        match q.value {
            QualValue::Text(v) => Some(v@),
            _ => None,
        }
    } else {
        None
    }
}

/// One predicate applied to what the earlier ones said.
pub open spec fn scan_step(st: ScanView, q: Qual) -> ScanView {
    let f = q.field@;
    if f == "product_type"@ {
        match equality_text(q) {
            Some(v) => ScanView { product: Some(v), ..st },
            None => st,
        }
    } else if f == "data_category"@ {
        match equality_text(q) {
            Some(v) => ScanView { category: Some(v), ..st },
            None => st,
        }
    } else if f == "price_type"@ {
        match equality_text(q) {
            Some(v) => ScanView { price: Some(v), ..st },
            None => st,
        }
    } else if f == "timestamp_utc"@ {
        match q.value {
            QualValue::Timestamptz(m) => if day_in_range(micros_day_number(m as int)) {
                with_timestamp(st, q.operator@, micros_day_number(m as int), m, true)
            } else {
                st
            },
            QualValue::Text(s) => match timestamp_reading(s@) {
                Some((v, timed)) => if day_in_range(micros_day_number(v as int)) {
                    with_timestamp(st, q.operator@, micros_day_number(v as int), v, timed)
                } else {
                    st
                },
                None => st,
            },
            QualValue::Other => st,
        }
    } else {
        st
    }
}

/// What a sequence of predicates says, read in order.
pub open spec fn scan_all(qs: Seq<Qual>) -> ScanView
    decreases qs.len(),
{
    if qs.len() == 0 {
        empty_scan()
    } else {
        scan_step(scan_all(qs.drop_last()), qs.last())
    }
}

/// A timestamp predicate whose literal is malformed, or whose instant has
/// no calendar date.
pub open spec fn bad_timestamp(q: Qual) -> bool {
    q.field@ == "timestamp_utc"@ && match q.value {
        QualValue::Timestamptz(m) => !day_in_range(micros_day_number(m as int)),
        QualValue::Text(s) => match timestamp_reading(s@) {
            Some((v, _)) => !day_in_range(micros_day_number(v as int)),
            None => true,
        },
        QualValue::Other => false,
    }
}

pub open spec fn scan_error(qs: Seq<Qual>) -> bool {
    exists|i: int| 0 <= i < qs.len() && bad_timestamp(#[trigger] qs[i])
}

/// The resolved day window, as day numbers: `None` when it cannot be
/// built, `Some(None)` when there is no timestamp predicate.
///
/// A single-day window, or one whose predicates carry a time of day
/// (`timed`), reaches one day past the nominal end; a lone lower or upper end
/// gets a seven-day window. The window must not run backwards and its ends
/// must be representable.
pub open spec fn resolved_days(start: Option<int>, end: Option<int>, timed: bool) -> Option<
    Option<(int, int)>,
> {
    match (start, end) {
        (Some(s), Some(e)) => {
            let a = if s == e || timed {
                e + 1
            } else {
                e
            };
            if day_in_range(s) && day_in_range(a) && s <= a {
                Some(Some((s, a)))
            } else {
                None
            }
        },
        (Some(s), None) => if day_in_range(s) && day_in_range(s + 7) {
            Some(Some((s, s + 7)))
        } else {
            None
        },
        (None, Some(e)) => if day_in_range(e - 7) && day_in_range(e) {
            Some(Some((e - 7, e)))
        } else {
            None
        },
        (None, None) => Some(None),
    }
}

/// `YYYY-MM-DD` text of the date with day number `n`.
pub open spec fn day_text(n: int) -> Seq<char> {
    date_text(date_of_number(n))
}

/// A window of day numbers as `YYYY-MM-DD` texts.
pub open spec fn window_texts(w: Option<(int, int)>) -> Option<(Seq<char>, Seq<char>)> {
    match w {
        Some((s, e)) => Some((day_text(s), day_text(e))),
        None => None,
    }
}

/// The day number of an optional date text: `Some(None)` for no text,
/// `None` for a text that is no date.
pub open spec fn opt_day(t: Option<Seq<char>>) -> Option<Option<int>> {
    match t {
        None => Some(None),
        Some(s) => match parsed_calendar_date(s) {
            Some(d) => Some(Some(d.day_number())),
            None => None,
        },
    }
}

/// The resolved window of nominal start and end date texts.
pub open spec fn resolved_window(
    start: Option<Seq<char>>,
    end: Option<Seq<char>>,
    timed: bool,
) -> Option<Option<(Seq<char>, Seq<char>)>> {
    match (opt_day(start), opt_day(end)) {
        (Some(s), Some(e)) => match resolved_days(s, e, timed) {
            Some(w) => Some(window_texts(w)),
            None => None,
        },
        _ => None,
    }
}

pub open spec fn range_view(r: Option<DateRange>) -> Option<(Seq<char>, Seq<char>)> {
    match r {
        Some(d) => Some((d.start@, d.end@)),
        None => None,
    }
}

pub open spec fn opt_day_number(d: Option<CalendarDate>) -> Option<int> {
    match d {
        Some(x) => Some(x.day_number()),
        None => None,
    }
}

pub open spec fn opt_valid(d: Option<CalendarDate>) -> bool {
    match d {
        Some(x) => x.valid(),
        None => true,
    }
}

fn window_of_dates(s: CalendarDate, e: CalendarDate) -> (r: Option<DateRange>)
    requires
        s.valid(),
        e.valid(),
    ensures
        range_view(r) == Some((day_text(s.day_number()), day_text(e.day_number()))),
{
    proof {
        lemma_date_of_own_number(s);
        lemma_date_of_own_number(e);
    }
    Some(DateRange { start: date_to_text(&s), end: date_to_text(&e) })
}

fn resolve_days(start: Option<CalendarDate>, end: Option<CalendarDate>, timed: bool) -> (r: Result<
    Option<DateRange>,
    String,
>)
    requires
        opt_valid(start),
        opt_valid(end),
    ensures
        match resolved_days(opt_day_number(start), opt_day_number(end), timed) {
            Some(w) => r matches Ok(d) && range_view(d) == window_texts(w),
            None => r is Err,
        },
{
    match (start, end) {
        (Some(s), Some(e)) => {
            proof {
                lemma_valid_in_range(s);
                lemma_valid_in_range(e);
                if s.day_number() == e.day_number() {
                    lemma_day_number_injective(s, e);
                }
            }
            let same = s.year == e.year && s.month == e.month && s.day == e.day;
            let a = if same || timed {
                match shift_date(&e, 1) {
                    Some(x) => x,
                    None => return Err(String::from_str("Invalid date range: end out of range")),
                }
            } else {
                e
            };
            let after = s.year > a.year || (s.year == a.year && (s.month > a.month || (s.month
                == a.month && s.day > a.day)));
            proof {
                if after {
                    lemma_day_number_increases(a, s);
                } else if s != a {
                    lemma_day_number_increases(s, a);
                }
            }
            if after {
                return Err(String::from_str("Invalid date range: start is after end"));
            }
            Ok(window_of_dates(s, a))
        },
        (Some(s), None) => {
            proof {
                lemma_valid_in_range(s);
            }
            match shift_date(&s, 7) {
                Some(e) => Ok(window_of_dates(s, e)),
                None => Err(String::from_str("Invalid date range: end out of range")),
            }
        },
        (None, Some(e)) => {
            proof {
                lemma_valid_in_range(e);
            }
            match shift_date(&e, -7) {
                Some(s) => Ok(window_of_dates(s, e)),
                None => Err(String::from_str("Invalid date range: start out of range")),
            }
        },
        (None, None) => Ok(None),
    }
}

pub open spec fn resolves(
    start: Option<Seq<char>>,
    end: Option<Seq<char>>,
    timed: bool,
    r: Result<Option<DateRange>, String>,
) -> bool {
    match resolved_window(start, end, timed) {
        Some(w) => r matches Ok(d) && range_view(d) == w,
        None => r is Err,
    }
}

fn read_day(t: &Option<String>) -> (r: Result<Option<CalendarDate>, String>)
    ensures
        match opt_day(opt_text(*t)) {
            Some(n) => r matches Ok(d) && opt_day_number(d) == n && opt_valid(d),
            None => r is Err,
        },
{
    match t {
        None => Ok(None),
        Some(s) => match parse_date_text(s.as_str()) {
            Some(d) => Ok(Some(d)),
            None => {
                let mut msg = owned("Invalid date range: not a date: '");
                msg.append(s.as_str());
                msg.append("'");
                Err(msg)
            },
        },
    }
}

/// Resolves the day window of the remote request from the nominal start and
/// end dates (`YYYY-MM-DD`) of the timestamp predicates.
///
/// Fails when a date does not parse, the window runs backwards, or an end
/// leaves the representable range.
pub fn resolve_timestamp_range(
    start: Option<String>,
    end: Option<String>,
    timed: bool,
) -> (r: Result<Option<DateRange>, String>)
    ensures
        resolves(opt_text(start), opt_text(end), timed, r),
{
    let s = match read_day(&start) {
        Ok(d) => d,
        Err(m) => return Err(m),
    };
    let e = match read_day(&end) {
        Ok(d) => d,
        Err(m) => return Err(m),
    };
    resolve_days(s, e, timed)
}

pub open spec fn bound_view(v: Option<i64>, op: Option<String>) -> Option<(i64, Seq<char>)> {
    match (v, op) {
        (Some(x), Some(o)) => Some((x, o@)),
        _ => None,
    }
}

/// Full-precision bounds as they stand in the filters.
pub open spec fn bounds_view(b: Option<TimestampBounds>) -> Option<
    (Option<(i64, Seq<char>)>, Option<(i64, Seq<char>)>),
> {
    match b {
        Some(t) => Some(
            (bound_view(t.start, t.start_operator), bound_view(t.end, t.end_operator)),
        ),
        None => None,
    }
}

/// The bounds record of a scan: absent when neither end is bounded.
pub open spec fn bounds_of(
    lower: Option<(i64, Seq<char>)>,
    upper: Option<(i64, Seq<char>)>,
) -> Option<(Option<(i64, Seq<char>)>, Option<(i64, Seq<char>)>)> {
    if lower is None && upper is None {
        None
    } else {
        Some((lower, upper))
    }
}

/// Exec counterpart of `ScanView`.
struct ScanState {
    product: Option<String>,
    category: Option<String>,
    price: Option<String>,
    start: Option<CalendarDate>,
    end: Option<CalendarDate>,
    lower: Option<(i64, String)>,
    upper: Option<(i64, String)>,
    timed: bool,
}

pub open spec fn opt_bound(b: Option<(i64, String)>) -> Option<(i64, Seq<char>)> {
    match b {
        Some((v, o)) => Some((v, o@)),
        None => None,
    }
}

impl ScanState {
    spec fn view(&self) -> ScanView {
        ScanView {
            product: opt_text(self.product),
            category: opt_text(self.category),
            price: opt_text(self.price),
            start: opt_day_number(self.start),
            end: opt_day_number(self.end),
            lower: opt_bound(self.lower),
            upper: opt_bound(self.upper),
            timed: self.timed,
        }
    }

    spec fn wf(&self) -> bool {
        opt_valid(self.start) && opt_valid(self.end)
    }

    fn note_timestamp(&mut self, op: &str, day: CalendarDate, micros: i64, timed: bool)
        requires
            old(self).wf(),
            day.valid(),
        ensures
            final(self).wf(),
            final(self).view() == with_timestamp(
                old(self).view(),
                op@,
                day.day_number(),
                micros,
                timed,
            ),
    {
        if same_text(op, ">=") || same_text(op, ">") {
            self.start = Some(day);
            self.lower = Some((micros, owned(op)));
            self.timed = self.timed || timed;
        } else if same_text(op, "<") || same_text(op, "<=") {
            self.end = Some(day);
            self.upper = Some((micros, owned(op)));
            self.timed = self.timed || timed;
        } else if same_text(op, "=") {
            self.start = Some(day);
            self.end = Some(day);
            self.lower = Some((micros, owned(">=")));
            self.upper = Some((micros, owned("<=")));
            self.timed = self.timed || timed;
        }
    }
}

fn equality_value(q: &Qual) -> (r: Option<String>)
    ensures
        opt_text(r) == equality_text(*q),
{
    if same_text(q.operator.as_str(), "=") {
        match &q.value {
            QualValue::Text(v) => Some(v.clone()),
            _ => None,
        }
    } else {
        None
    }
}

/// What `parse_quals` returns for `quals` of table `table_name`.
pub open spec fn parses_to(quals: Seq<Qual>, table_name: Seq<char>, r: Result<QualFilters, String>) -> bool {
    if scan_error(quals) {
        r is Err
    } else {
        let sc = scan_all(quals);
        match resolved_days(sc.start, sc.end, sc.timed) {
            None => r is Err,
            Some(w) => r matches Ok(f) && opt_text(f.product_type) == sc.product && opt_text(
                f.data_category,
            ) == sc.category && opt_text(f.price_type) == sc.price && range_view(f.timestamp_range)
                == window_texts(w) && bounds_view(f.timestamp_bounds) == bounds_of(sc.lower, sc.upper)
                && f.table_name@ == table_name,
        }
    }
}

/// Reads the predicates of a scan into filters, resolving the day window of
/// the remote request and keeping full-precision bounds for the rows.
///
/// Fails when a timestamp literal is malformed, an instant has no calendar
/// date, or the window cannot be built.
pub fn parse_quals(quals: &Vec<Qual>, table_name: String) -> (r: Result<QualFilters, String>)
    ensures
        parses_to(quals@, table_name@, r),
{
    let mut st = ScanState {
        product: None,
        category: None,
        price: None,
        start: None,
        end: None,
        lower: None,
        upper: None,
        timed: false,
    };
    let mut i: usize = 0;
    while i < quals.len()
        invariant
            i <= quals.len(),
            st.view() == scan_all(quals@.take(i as int)),
            st.wf(),
            forall|j: int| 0 <= j < i ==> !bad_timestamp(#[trigger] quals@[j]),
        decreases quals.len() - i,
    {
        let q = &quals[i];
        proof {
            assert(quals@.take(i + 1).drop_last() =~= quals@.take(i as int));
            assert(quals@.take(i + 1).last() == quals@[i as int]);
        }
        let field = q.field.as_str();
        proof {
            reveal_strlit("product_type");
            reveal_strlit("data_category");
            reveal_strlit("price_type");
            reveal_strlit("timestamp_utc");
            if q.field@ == "timestamp_utc"@ {
                assert(q.field@[0] == 't');
            }
        }
        if same_text(field, "product_type") {
            if let Some(v) = equality_value(q) {
                st.product = Some(v);
            }
        } else if same_text(field, "data_category") {
            if let Some(v) = equality_value(q) {
                st.category = Some(v);
            }
        } else if same_text(field, "price_type") {
            if let Some(v) = equality_value(q) {
                st.price = Some(v);
            }
        } else if same_text(field, "timestamp_utc") {
            match &q.value {
                QualValue::Timestamptz(m) => {
                    let day = match micros_to_date(*m) {
                        Some(d) => d,
                        None => {
                            assert(bad_timestamp(quals@[i as int]));
                            return Err(owned("Failed to parse timestamp_utc: out of valid range"));
                        },
                    };
                    st.note_timestamp(q.operator.as_str(), day, *m, true);
                },
                QualValue::Text(s) => {
                    let (micros, timed) = match read_timestamp_text(s.as_str()) {
                        Some(reading) => reading,
                        None => {
                            assert(bad_timestamp(quals@[i as int]));
                            let mut msg = owned("Invalid timestamp for timestamp_utc: '");
                            msg.append(s.as_str());
                            msg.append("'");
                            return Err(msg);
                        },
                    };
                    let day = match micros_to_date(micros) {
                        Some(d) => d,
                        None => {
                            assert(bad_timestamp(quals@[i as int]));
                            let mut msg = owned("Invalid timestamp for timestamp_utc: '");
                            msg.append(s.as_str());
                            msg.append("' is out of range");
                            return Err(msg);
                        },
                    };
                    st.note_timestamp(q.operator.as_str(), day, micros, timed);
                },
                QualValue::Other => {},
            }
        }
        i = i + 1;
    }
    assert(quals@.take(i as int) =~= quals@);
    let timestamp_range = match resolve_days(st.start, st.end, st.timed) {
        Ok(r) => r,
        Err(e) => return Err(e),
    };
    let timestamp_bounds = if st.lower.is_none() && st.upper.is_none() {
        None
    } else {
        let (start, start_operator) = match st.lower {
            Some((v, o)) => (Some(v), Some(o)),
            None => (None, None),
        };
        let (end, end_operator) = match st.upper {
            Some((v, o)) => (Some(v), Some(o)),
            None => (None, None),
        };
        Some(TimestampBounds { start, start_operator, end, end_operator })
    };
    Ok(
        QualFilters {
            product_type: st.product,
            data_category: st.category,
            price_type: st.price,
            timestamp_range,
            timestamp_bounds,
            table_name,
        },
    )
}

/// The days a scan names are representable.
proof fn lemma_scan_days_in_range(qs: Seq<Qual>)
    ensures
        scan_all(qs).start matches Some(d) ==> day_in_range(d),
        scan_all(qs).end matches Some(d) ==> day_in_range(d),
    decreases qs.len(),
{
    if qs.len() > 0 {
        lemma_scan_days_in_range(qs.drop_last());
    }
}

/// A window that `parse_quals` returns runs forward between representable
/// days, written as `YYYY-MM-DD`.
pub proof fn lemma_window_runs_forward(
    quals: Seq<Qual>,
    table_name: Seq<char>,
    r: Result<QualFilters, String>,
)
    requires
        parses_to(quals, table_name, r),
        r matches Ok(f) && f.timestamp_range is Some,
    ensures
        exists|s: int, e: int|
            #![trigger day_text(s), day_text(e)]
            s <= e && day_in_range(s) && day_in_range(e) && range_view(r->Ok_0.timestamp_range)
                == Some((day_text(s), day_text(e))),
{
    let sc = scan_all(quals);
    let w = resolved_days(sc.start, sc.end, sc.timed)->Some_0->Some_0;
    assert(day_text(w.0) == day_text(w.0) && day_text(w.1) == day_text(w.1));
}

/// The window of a scan whose predicates name one calendar day reaches to
/// the day after it.
pub proof fn lemma_single_day_window(
    quals: Seq<Qual>,
    table_name: Seq<char>,
    r: Result<QualFilters, String>,
)
    requires
        parses_to(quals, table_name, r),
        scan_all(quals).start is Some,
        scan_all(quals).end == scan_all(quals).start,
    ensures
        !scan_error(quals) ==> ({
            let d = scan_all(quals).start->Some_0;
            if day_in_range(d + 1) {
                r matches Ok(f) && range_view(f.timestamp_range) == Some((day_text(d), day_text(d + 1)))
            } else {
                r is Err
            }
        }),
{
    lemma_scan_days_in_range(quals);
}

/// A multi-day window whose predicates carry a time of day reaches one day
/// past its nominal end; a window of calendar dates only keeps its end.
pub proof fn lemma_multi_day_window(
    quals: Seq<Qual>,
    table_name: Seq<char>,
    r: Result<QualFilters, String>,
)
    requires
        parses_to(quals, table_name, r),
        scan_all(quals).start is Some,
        scan_all(quals).end is Some,
        scan_all(quals).start->Some_0 < scan_all(quals).end->Some_0,
    ensures
        !scan_error(quals) ==> ({
            let sc = scan_all(quals);
            let (s, e) = (sc.start->Some_0, sc.end->Some_0);
            if sc.timed {
                if day_in_range(e + 1) {
                    r matches Ok(f) && range_view(f.timestamp_range) == Some((day_text(s), day_text(e + 1)))
                } else {
                    r is Err
                }
            } else {
                r matches Ok(f) && range_view(f.timestamp_range) == Some((day_text(s), day_text(e)))
            }
        }),
{
    lemma_scan_days_in_range(quals);
}

/// A reversed window, whose start falls after its end even once the end is
/// moved forward, is rejected.
pub proof fn lemma_reversed_window_rejected(
    quals: Seq<Qual>,
    table_name: Seq<char>,
    r: Result<QualFilters, String>,
)
    requires
        parses_to(quals, table_name, r),
        scan_all(quals).start is Some,
        scan_all(quals).end is Some,
        scan_all(quals).start->Some_0 > scan_all(quals).end->Some_0 + 1,
    ensures
        r is Err,
{
}

/// A predicate that can set the lower end of the window.
pub open spec fn sets_lower(q: Qual) -> bool {
    q.field@ == "timestamp_utc"@ && (q.operator@ == ">="@ || q.operator@ == ">"@ || q.operator@
        == "="@)
}

/// A predicate that can set the upper end of the window.
pub open spec fn sets_upper(q: Qual) -> bool {
    q.field@ == "timestamp_utc"@ && (q.operator@ == "<"@ || q.operator@ == "<="@ || q.operator@
        == "="@)
}

proof fn lemma_no_upper_end(qs: Seq<Qual>)
    requires
        forall|i: int| 0 <= i < qs.len() ==> !sets_upper(#[trigger] qs[i]),
    ensures
        scan_all(qs).end is None,
    decreases qs.len(),
{
    if qs.len() > 0 {
        assert(!sets_upper(qs[qs.len() - 1]));
        lemma_no_upper_end(qs.drop_last());
    }
}

proof fn lemma_no_lower_end(qs: Seq<Qual>)
    requires
        forall|i: int| 0 <= i < qs.len() ==> !sets_lower(#[trigger] qs[i]),
    ensures
        scan_all(qs).start is None,
    decreases qs.len(),
{
    if qs.len() > 0 {
        assert(!sets_lower(qs[qs.len() - 1]));
        lemma_no_lower_end(qs.drop_last());
    }
}

/// With lower-bound predicates only, the window is the seven days from the
/// day of the last of them.
pub proof fn lemma_lower_bound_only_window(
    quals: Seq<Qual>,
    table_name: Seq<char>,
    r: Result<QualFilters, String>,
)
    requires
        parses_to(quals, table_name, r),
        forall|i: int| 0 <= i < quals.len() ==> !sets_upper(#[trigger] quals[i]),
        scan_all(quals).start is Some,
    ensures
        !scan_error(quals) ==> ({
            let s = scan_all(quals).start->Some_0;
            if day_in_range(s + 7) {
                r matches Ok(f) && range_view(f.timestamp_range) == Some((day_text(s), day_text(s + 7)))
            } else {
                r is Err
            }
        }),
{
    lemma_no_upper_end(quals);
    lemma_scan_days_in_range(quals);
}

/// With upper-bound predicates only, the window is the seven days before
/// the day of the last of them.
pub proof fn lemma_upper_bound_only_window(
    quals: Seq<Qual>,
    table_name: Seq<char>,
    r: Result<QualFilters, String>,
)
    requires
        parses_to(quals, table_name, r),
        forall|i: int| 0 <= i < quals.len() ==> !sets_lower(#[trigger] quals[i]),
        scan_all(quals).end is Some,
    ensures
        !scan_error(quals) ==> ({
            let e = scan_all(quals).end->Some_0;
            if day_in_range(e - 7) {
                r matches Ok(f) && range_view(f.timestamp_range) == Some((day_text(e - 7), day_text(e)))
            } else {
                r is Err
            }
        }),
{
    lemma_no_lower_end(quals);
    lemma_scan_days_in_range(quals);
}

} // verus!
