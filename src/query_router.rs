//! Endpoint mapping and fetch-plan building.
//!
//! Categorical filters of a logical table are expanded into the remote
//! endpoints (and product parameters) that serve them; every endpoint gets
//! one fetch plan over the same day window.
use crate::calendar::{parse_date_text, parsed_calendar_date, CalendarDate};
use crate::error::{ApiError, NtpFdwError};
use crate::text::{owned, same_text};
use vstd::prelude::*;

verus! {

/// One remote call: endpoint, optional product, day window and request target.
#[derive(Debug, Clone, PartialEq)]
pub struct QueryPlan {
    pub endpoint: String,
    pub product: Option<String>,
    pub date_from: String,
    pub date_to: String,
    pub api_url: String,
}

/// Filters extracted from a scan's predicates.
#[derive(Debug, Clone)]
pub struct QualFilters {
    pub product_type: Option<String>,
    pub data_category: Option<String>,
    pub price_type: Option<String>,
    /// Day window (`YYYY-MM-DD`, end exclusive) for the remote request.
    pub timestamp_range: Option<DateRange>,
    /// Full-precision bounds for filtering the fetched rows.
    pub timestamp_bounds: Option<TimestampBounds>,
    pub table_name: String,
}

/// Half-open day window `[start, end)` of `YYYY-MM-DD` dates.
#[derive(Debug, Clone, PartialEq)]
pub struct DateRange {
    pub start: String,
    pub end: String,
}

/// Full-precision timestamp bounds (microseconds since the epoch) with the
/// comparison operator each came with.
#[derive(Debug, Clone)]
pub struct TimestampBounds {
    pub start: Option<i64>,
    pub start_operator: Option<String>,
    pub end: Option<i64>,
    pub end_operator: Option<String>,
}

/// (endpoint, product, date_from, date_to, api_url)
pub type PlanView = (Seq<char>, Option<Seq<char>>, Seq<char>, Seq<char>, Seq<char>);

impl View for QueryPlan {
    type V = PlanView;

    open spec fn view(&self) -> PlanView {
        (self.endpoint@, opt_text(self.product), self.date_from@, self.date_to@, self.api_url@)
    }
}

pub open spec fn opt_text(o: Option<String>) -> Option<Seq<char>> {
    match o {
        Some(s) => Some(s@),
        None => None,
    }
}

pub open spec fn opt_str(o: Option<&str>) -> Option<Seq<char>> {
    match o {
        Some(s) => Some(s@),
        None => None,
    }
}

pub open spec fn plan_views(ps: Seq<QueryPlan>) -> Seq<PlanView> {
    ps.map_values(|p: QueryPlan| p@)
}

/// `s` without its trailing `/` characters.
pub open spec fn trim_trailing_slashes(s: Seq<char>) -> Seq<char>
    decreases s.len(),
{
    if s.len() > 0 && s.last() == '/' {
        trim_trailing_slashes(s.drop_last())
    } else {
        s
    }
}

/// Characters `a..b` of `s`, both ends cut to the length of `s`.
pub open spec fn clamped(s: Seq<char>, a: int, b: int) -> Seq<char> {
    let n = s.len() as int;
    let lo = if a < n {
        a
    } else {
        n
    };
    let hi = if b < n {
        b
    } else {
        n
    };
    s.subrange(lo, hi)
}

/// Request target of a remote call.
///
/// The annual endpoint takes the year of `from`; the monthly endpoint takes
/// month and year of `from` and of `to`; all others take the day range,
/// after the product when there is one.
pub open spec fn api_url(
    base: Seq<char>,
    endpoint: Seq<char>,
    product: Option<Seq<char>>,
    from: Seq<char>,
    to: Seq<char>,
) -> Seq<char> {
    let b = trim_trailing_slashes(base) + "/"@ + endpoint + "/"@;
    if endpoint == "Jahresmarktpraemie"@ {
        b + clamped(from, 0, 4)
    } else if endpoint == "marktpraemie"@ {
        b + clamped(from, 5, 7) + "/"@ + clamped(from, 0, 4) + "/"@ + clamped(to, 5, 7) + "/"@
            + clamped(to, 0, 4)
    } else {
        match product {
            Some(p) => b + p + "/"@ + from + "/"@ + to,
            None => b + from + "/"@ + to,
        }
    }
}

proof fn lemma_trim_trailing(s: Seq<char>, k: int)
    requires
        0 <= k <= s.len(),
        forall|j: int| k <= j < s.len() ==> s[j] == '/',
        k == 0 || s[k - 1] != '/',
    ensures
        trim_trailing_slashes(s) == s.take(k),
    decreases s.len(),
{
    if s.len() > 0 && s.last() == '/' {
        assert(k < s.len());
        lemma_trim_trailing(s.drop_last(), k);
        assert(s.drop_last().take(k) =~= s.take(k));
    } else {
        assert(k == s.len());
        assert(s.take(k) =~= s);
    }
}

fn trim_slashes(s: &str) -> (r: String)
    ensures
        r@ == trim_trailing_slashes(s@),
{
    let n = s.unicode_len();
    let mut k: usize = n;
    while k > 0 && s.get_char(k - 1) == '/'
        invariant
            n == s@.len(),
            k <= n,
            forall|j: int| k <= j < n ==> s@[j] == '/',
        decreases k,
    {
        k = k - 1;
    }
    proof {
        lemma_trim_trailing(s@, k as int);
    }
    owned(s.substring_char(0, k))
}

fn clamped_part(s: &str, a: usize, b: usize) -> (r: &str)
    requires
        a <= b,
    ensures
        r@ == clamped(s@, a as int, b as int),
{
    let n = s.unicode_len();
    let lo = if a < n {
        a
    } else {
        n
    };
    let hi = if b < n {
        b
    } else {
        n
    };
    s.substring_char(lo, hi)
}

/// Builds the request target of a remote call under `base_url`.
///
/// Trailing slashes of `base_url` are dropped. Year and month are read by
/// character position from `YYYY-MM-DD`; a shorter text gives what it holds.
pub fn build_api_url(
    base_url: &str,
    endpoint: &str,
    product: Option<&str>,
    date_from: &str,
    date_to: &str,
) -> (r: String)
    ensures
        r@ == api_url(base_url@, endpoint@, opt_str(product), date_from@, date_to@),
{
    let mut out = trim_slashes(base_url);
    out.append("/");
    out.append(endpoint);
    out.append("/");
    if same_text(endpoint, "Jahresmarktpraemie") {
        out.append(clamped_part(date_from, 0, 4));
        return out;
    }
    if same_text(endpoint, "marktpraemie") {
        out.append(clamped_part(date_from, 5, 7));
        out.append("/");
        out.append(clamped_part(date_from, 0, 4));
        out.append("/");
        out.append(clamped_part(date_to, 5, 7));
        out.append("/");
        out.append(clamped_part(date_to, 0, 4));
        return out;
    }
    match product {
        Some(p) => {
            out.append(p);
            out.append("/");
        },
        None => {},
    }
    out.append(date_from);
    out.append("/");
    out.append(date_to);
    out
}

/// Day window used when a scan has no timestamp predicate.
pub open spec fn default_window() -> (Seq<char>, Seq<char>) {
    ("2024-10-18"@, "2024-10-25"@)
}

/// The day window of a scan: its own, or the fallback one.
pub open spec fn window_of(r: Option<DateRange>) -> (Seq<char>, Seq<char>) {
    match r {
        Some(d) => (d.start@, d.end@),
        None => default_window(),
    }
}

/// Returns the scan's day window, or the fixed fallback window when it has none.
pub fn extract_date_range(timestamp_range: Option<&DateRange>) -> (r: DateRange)
    ensures
        (r.start@, r.end@) == window_of(
            match timestamp_range {
                Some(d) => Some(*d),
                None => None,
            },
        ),
{
    match timestamp_range {
        Some(range) => DateRange { start: range.start.clone(), end: range.end.clone() },
        None => DateRange { start: owned("2024-10-18"), end: owned("2024-10-25") },
    }
}

/// `a` is a later date than `b`.
pub open spec fn date_after(a: CalendarDate, b: CalendarDate) -> bool {
    a.year > b.year || (a.year == b.year && (a.month > b.month || (a.month == b.month && a.day
        > b.day)))
}

/// Both ends are dates and the window does not run backwards.
pub open spec fn window_ok(from: Seq<char>, to: Seq<char>) -> bool {
    match (parsed_calendar_date(from), parsed_calendar_date(to)) {
        (Some(a), Some(b)) => !date_after(a, b),
        _ => false,
    }
}

pub open spec fn is_bad_request(e: NtpFdwError) -> bool {
    e matches NtpFdwError::Api(ApiError::HttpError { status, .. }) && status == 400
}

/// Checks that both texts are dates and that `date_from` is not after `date_to`.
pub fn validate_date_range(date_from: &str, date_to: &str) -> (r: Result<(), NtpFdwError>)
    ensures
        r is Ok <==> window_ok(date_from@, date_to@),
        r matches Err(e) ==> is_bad_request(e),
{
    let from = match parse_date_text(date_from) {
        Some(d) => d,
        None => {
            let mut body = owned("Invalid date format for date_from: '");
            body.append(date_from);
            body.append("'. Expected YYYY-MM-DD.");
            return Err(NtpFdwError::Api(ApiError::HttpError { status: 400, body }));
        },
    };
    let to = match parse_date_text(date_to) {
        Some(d) => d,
        None => {
            let mut body = owned("Invalid date format for date_to: '");
            body.append(date_to);
            body.append("'. Expected YYYY-MM-DD.");
            return Err(NtpFdwError::Api(ApiError::HttpError { status: 400, body }));
        },
    };
    let after = from.year > to.year || (from.year == to.year && (from.month > to.month || (
    from.month == to.month && from.day > to.day)));
    if after {
        let mut body = owned("Invalid date range: date_from (");
        body.append(date_from);
        body.append(") must be <= date_to (");
        body.append(date_to);
        body.append(")");
        return Err(NtpFdwError::Api(ApiError::HttpError { status: 400, body }));
    }
    Ok(())
}

/// Remote product names for a product type under a data category; `None`
/// for an unknown product type.
pub open spec fn product_api_names(product: Seq<char>, category: Seq<char>) -> Option<
    Seq<Seq<char>>,
> {
    if product == "solar"@ {
        Some(seq!["Solar"@])
    } else if product == "wind_onshore"@ && (category == "forecast"@ || category
        == "extrapolation"@) {
        Some(seq!["Wind"@])
    } else if product == "wind_onshore"@ && category == "online_actual"@ {
        Some(seq!["Windonshore"@])
    } else if product == "wind_offshore"@ && category == "online_actual"@ {
        Some(seq!["Windoffshore"@])
    } else if product == "wind_offshore"@ && (category == "forecast"@ || category
        == "extrapolation"@) {
        Some(seq![])
    } else {
        None
    }
}

pub open spec fn str_views(v: Seq<&str>) -> Seq<Seq<char>> {
    v.map_values(|s: &str| s@)
}

/// Maps a product type and data category to the remote product names.
///
/// Offshore wind has online data only: its other categories map to no name.
pub fn map_product_to_api(product_type: &str, category: &str) -> (r: Result<
    Vec<&'static str>,
    NtpFdwError,
>)
    ensures
        match product_api_names(product_type@, category@) {
            Some(names) => r matches Ok(v) && str_views(v@) == names,
            None => r matches Err(NtpFdwError::Generic(_)),
        },
{
    let r: Vec<&'static str> = if same_text(product_type, "solar") {
        vec!["Solar"]
    } else if same_text(product_type, "wind_onshore") && (same_text(category, "forecast")
        || same_text(category, "extrapolation")) {
        vec!["Wind"]
    } else if same_text(product_type, "wind_onshore") && same_text(category, "online_actual") {
        vec!["Windonshore"]
    } else if same_text(product_type, "wind_offshore") && same_text(category, "online_actual") {
        vec!["Windoffshore"]
    } else if same_text(product_type, "wind_offshore") && (same_text(category, "forecast")
        || same_text(category, "extrapolation")) {
        vec![]
    } else {
        let mut msg = owned("Unknown product type: '");
        msg.append(product_type);
        msg.append("'. Expected 'solar', 'wind_onshore', or 'wind_offshore'.");
        return Err(NtpFdwError::Generic(msg));
    };
    assert(str_views(r@) =~= product_api_names(product_type@, category@).unwrap());
    Ok(r)
}

/// Remote endpoint of a data category.
pub open spec fn category_endpoint(category: Seq<char>) -> Option<Seq<char>> {
    if category == "forecast"@ {
        Some("prognose"@)
    } else if category == "extrapolation"@ {
        Some("hochrechnung"@)
    } else if category == "online_actual"@ {
        Some("onlinehochrechnung"@)
    } else {
        None
    }
}

/// Maps a data category to its remote endpoint.
pub fn map_category_to_endpoint(category: &str) -> (r: Result<&'static str, NtpFdwError>)
    ensures
        match category_endpoint(category@) {
            Some(e) => r matches Ok(s) && s@ == e,
            None => r matches Err(NtpFdwError::Generic(_)),
        },
{
    if same_text(category, "forecast") {
        Ok("prognose")
    } else if same_text(category, "extrapolation") {
        Ok("hochrechnung")
    } else if same_text(category, "online_actual") {
        Ok("onlinehochrechnung")
    } else {
        let mut msg = owned("Unknown data category: '");
        msg.append(category);
        msg.append("'. Expected 'forecast', 'extrapolation', or 'online_actual'.");
        Err(NtpFdwError::Generic(msg))
    }
}

/// Remote endpoint of a price type.
pub open spec fn price_endpoint(price_type: Seq<char>) -> Option<Seq<char>> {
    if price_type == "spot_market"@ {
        Some("Spotmarktpreise"@)
    } else if price_type == "market_premium"@ {
        Some("marktpraemie"@)
    } else if price_type == "annual_market_value"@ {
        Some("Jahresmarktpraemie"@)
    } else if price_type == "negative_flag"@ {
        Some("NegativePreise"@)
    } else {
        None
    }
}

/// Maps a price type to its remote endpoint.
pub fn map_price_type_to_endpoint(price_type: &str) -> (r: Result<&'static str, NtpFdwError>)
    ensures
        match price_endpoint(price_type@) {
            Some(e) => r matches Ok(s) && s@ == e,
            None => r matches Err(NtpFdwError::Generic(_)),
        },
{
    if same_text(price_type, "spot_market") {
        Ok("Spotmarktpreise")
    } else if same_text(price_type, "market_premium") {
        Ok("marktpraemie")
    } else if same_text(price_type, "annual_market_value") {
        Ok("Jahresmarktpraemie")
    } else if same_text(price_type, "negative_flag") {
        Ok("NegativePreise")
    } else {
        let mut msg = owned("Unknown price type: '");
        msg.append(price_type);
        msg.append(
            "'. Expected 'spot_market', 'market_premium', 'annual_market_value', or 'negative_flag'.",
        );
        Err(NtpFdwError::Generic(msg))
    }
}

/// A call to make: endpoint and optional product.
pub type Target = (Seq<char>, Option<Seq<char>>);

pub open spec fn target_views(
    targets: Seq<Target>,
    from: Seq<char>,
    to: Seq<char>,
    base: Seq<char>,
) -> Seq<PlanView> {
    targets.map_values(|t: Target| (t.0, t.1, from, to, api_url(base, t.0, t.1, from, to)))
}

fn make_plan(
    base_url: &str,
    endpoint: &str,
    product: Option<&str>,
    date_from: &String,
    date_to: &String,
) -> (p: QueryPlan)
    ensures
        p@ == (
            endpoint@,
            opt_str(product),
            date_from@,
            date_to@,
            api_url(base_url@, endpoint@, opt_str(product), date_from@, date_to@),
        ),
{
    let api_url = build_api_url(
        base_url,
        endpoint,
        product,
        date_from.as_str(),
        date_to.as_str(),
    );
    let product = match product {
        Some(p) => Some(owned(p)),
        None => None,
    };
    QueryPlan {
        endpoint: owned(endpoint),
        product,
        date_from: date_from.clone(),
        date_to: date_to.clone(),
        api_url,
    }
}

/// The product types, in declaration order.
pub open spec fn known_products() -> Seq<Seq<char>> {
    seq!["solar"@, "wind_onshore"@, "wind_offshore"@]
}

/// The data categories, in declaration order.
pub open spec fn known_categories() -> Seq<Seq<char>> {
    seq!["forecast"@, "extrapolation"@, "online_actual"@]
}

/// The price endpoints, in declaration order.
pub open spec fn known_price_endpoints() -> Seq<Seq<char>> {
    seq!["Spotmarktpreise"@, "NegativePreise"@, "marktpraemie"@, "Jahresmarktpraemie"@]
}

/// The one filtered value, or every known value.
pub open spec fn expand(filter: Option<Seq<char>>, known: Seq<Seq<char>>) -> Seq<Seq<char>> {
    match filter {
        Some(v) => seq![v],
        None => known,
    }
}

/// All (product, category) combinations, products outermost.
pub open spec fn combinations(ps: Seq<Seq<char>>, cs: Seq<Seq<char>>) -> Seq<
    (Seq<char>, Seq<char>),
>
    decreases ps.len(),
{
    if ps.len() == 0 {
        seq![]
    } else {
        combinations(ps.drop_last(), cs) + cs.map_values(|c: Seq<char>| (ps.last(), c))
    }
}

/// Calls for a sequence of combinations; `None` when one holds an unknown value.
pub open spec fn renewable_targets(pairs: Seq<(Seq<char>, Seq<char>)>) -> Option<Seq<Target>>
    decreases pairs.len(),
{
    if pairs.len() == 0 {
        Some(seq![])
    } else {
        let (p, c) = pairs.last();
        match (
            renewable_targets(pairs.drop_last()),
            product_api_names(p, c),
            category_endpoint(c),
        ) {
            (Some(prev), Some(names), Some(e)) => Some(
                prev + names.map_values(|n: Seq<char>| (e, Some(n))),
            ),
            _ => None,
        }
    }
}

/// Plans of the renewable-energy table.
pub open spec fn renewable_outcome(f: QualFilters, base: Seq<char>) -> Option<Seq<PlanView>> {
    let w = window_of(f.timestamp_range);
    let pairs = combinations(
        expand(opt_text(f.product_type), known_products()),
        expand(opt_text(f.data_category), known_categories()),
    );
    if !window_ok(w.0, w.1) {
        None
    } else {
        match renewable_targets(pairs) {
            Some(t) => Some(target_views(t, w.0, w.1, base)),
            None => None,
        }
    }
}

/// Plans of the market-price table.
pub open spec fn price_outcome(f: QualFilters, base: Seq<char>) -> Option<Seq<PlanView>> {
    let w = window_of(f.timestamp_range);
    let endpoints = match opt_text(f.price_type) {
        Some(p) => match price_endpoint(p) {
            Some(e) => Some(seq![e]),
            None => None,
        },
        None => Some(known_price_endpoints()),
    };
    if !window_ok(w.0, w.1) {
        None
    } else {
        match endpoints {
            Some(es) => Some(
                target_views(es.map_values(|e: Seq<char>| (e, None::<Seq<char>>)), w.0, w.1, base),
            ),
            None => None,
        }
    }
}

/// The one plan of a table served by a single endpoint.
pub open spec fn single_outcome(f: QualFilters, base: Seq<char>, endpoint: Seq<char>) -> Option<
    Seq<PlanView>,
> {
    let w = window_of(f.timestamp_range);
    if !window_ok(w.0, w.1) {
        None
    } else {
        Some(target_views(seq![(endpoint, None)], w.0, w.1, base))
    }
}

/// Plans of a scan of any table; `None` for an unknown table or filter value,
/// or a bad day window.
pub open spec fn route_outcome(f: QualFilters, base: Seq<char>) -> Option<Seq<PlanView>> {
    if f.table_name@ == "renewable_energy_timeseries"@ {
        renewable_outcome(f, base)
    } else if f.table_name@ == "electricity_market_prices"@ {
        price_outcome(f, base)
    } else if f.table_name@ == "redispatch_events"@ {
        single_outcome(f, base, "redispatch"@)
    } else if f.table_name@ == "grid_status_timeseries"@ {
        single_outcome(f, base, "TrafficLight"@)
    } else {
        None
    }
}

/// `r` holds the plans of `outcome`, or fails where there are none.
pub open spec fn delivers(
    r: Result<Vec<QueryPlan>, NtpFdwError>,
    outcome: Option<Seq<PlanView>>,
) -> bool {
    match outcome {
        Some(v) => r matches Ok(plans) && plan_views(plans@) == v,
        None => r is Err,
    }
}

pub open spec fn window_rejected(f: QualFilters) -> bool {
    !window_ok(window_of(f.timestamp_range).0, window_of(f.timestamp_range).1)
}

fn scan_window(filters: &QualFilters) -> (r: Result<DateRange, NtpFdwError>)
    ensures
        r matches Ok(d) ==> (d.start@, d.end@) == window_of(filters.timestamp_range) && window_ok(
            d.start@,
            d.end@,
        ),
        r is Err <==> window_rejected(*filters),
        r matches Err(e) ==> is_bad_request(e),
{
    let date_range = extract_date_range(filters.timestamp_range.as_ref());
    match validate_date_range(date_range.start.as_str(), date_range.end.as_str()) {
        Ok(()) => Ok(date_range),
        Err(e) => Err(e),
    }
}

proof fn lemma_combinations_step(ps: Seq<Seq<char>>, cs: Seq<Seq<char>>, i: int)
    requires
        0 <= i < ps.len(),
    ensures
        combinations(ps.take(i + 1), cs) == combinations(ps.take(i), cs) + cs.map_values(
            |c: Seq<char>| (ps[i], c),
        ),
{
    assert(ps.take(i + 1).drop_last() =~= ps.take(i));
}

proof fn lemma_targets_fail_extends(pairs: Seq<(Seq<char>, Seq<char>)>, k: int)
    requires
        0 <= k <= pairs.len(),
        renewable_targets(pairs.take(k)) is None,
    ensures
        renewable_targets(pairs) is None,
    decreases pairs.len() - k,
{
    if k < pairs.len() {
        assert(pairs.take(k + 1).drop_last() =~= pairs.take(k));
        lemma_targets_fail_extends(pairs, k + 1);
    } else {
        assert(pairs.take(k) =~= pairs);
    }
}

/// Plans of the renewable-energy table: every (product, category)
/// combination, unconstrained dimensions expanded in declaration order.
pub fn route_renewable(filters: &QualFilters, base_url: &str) -> (r: Result<
    Vec<QueryPlan>,
    NtpFdwError,
>)
    ensures
        delivers(r, renewable_outcome(*filters, base_url@)),
        window_rejected(*filters) ==> (r matches Err(e) && is_bad_request(e)),
{
    let date_range = match scan_window(filters) {
        Ok(d) => d,
        Err(e) => return Err(e),
    };
    let products: Vec<&str> = match &filters.product_type {
        Some(p) => vec![p.as_str()],
        None => vec!["solar", "wind_onshore", "wind_offshore"],
    };
    let categories: Vec<&str> = match &filters.data_category {
        Some(c) => vec![c.as_str()],
        None => vec!["forecast", "extrapolation", "online_actual"],
    };
    let ghost ps = expand(opt_text(filters.product_type), known_products());
    let ghost cs = expand(opt_text(filters.data_category), known_categories());
    assert(str_views(products@) =~= ps);
    assert(str_views(categories@) =~= cs);
    let mut pairs: Vec<(&str, &str)> = Vec::new();
    let mut i: usize = 0;
    while i < products.len()
        invariant
            str_views(products@) == ps,
            str_views(categories@) == cs,
            i <= products.len(),
            pairs@.map_values(|q: (&str, &str)| (q.0@, q.1@)) == combinations(
                ps.take(i as int),
                cs,
            ),
        decreases products.len() - i,
    {
        let mut j: usize = 0;
        while j < categories.len()
            invariant
                str_views(products@) == ps,
                str_views(categories@) == cs,
                i < products.len(),
                j <= categories.len(),
                pairs@.map_values(|q: (&str, &str)| (q.0@, q.1@)) == combinations(
                    ps.take(i as int),
                    cs,
                ) + cs.take(j as int).map_values(|c: Seq<char>| (ps[i as int], c)),
            decreases categories.len() - j,
        {
            let ghost before = pairs@;
            pairs.push((products[i], categories[j]));
            proof {
                assert(ps[i as int] == products@[i as int]@);
                assert(cs[j as int] == categories@[j as int]@);
                assert(pairs@ == before.push((products@[i as int], categories@[j as int])));
                assert(cs.take(j + 1).map_values(|c: Seq<char>| (ps[i as int], c)) =~= cs.take(
                    j as int,
                ).map_values(|c: Seq<char>| (ps[i as int], c)).push((ps[i as int], cs[j as int])));
                assert(pairs@.map_values(|q: (&str, &str)| (q.0@, q.1@)) =~= before.map_values(
                    |q: (&str, &str)| (q.0@, q.1@),
                ).push((ps[i as int], cs[j as int])));
                assert(pairs@.map_values(|q: (&str, &str)| (q.0@, q.1@)) =~= combinations(
                    ps.take(i as int),
                    cs,
                ) + cs.take(j + 1).map_values(|c: Seq<char>| (ps[i as int], c)));
            }
            j = j + 1;
        }
        proof {
            assert(cs.take(j as int) =~= cs);
            lemma_combinations_step(ps, cs, i as int);
        }
        i = i + 1;
    }
    assert(ps.take(i as int) =~= ps);
    let ghost all_pairs = combinations(ps, cs);
    let mut plans: Vec<QueryPlan> = Vec::new();
    let mut k: usize = 0;
    while k < pairs.len()
        invariant
            pairs@.map_values(|q: (&str, &str)| (q.0@, q.1@)) == all_pairs,
            all_pairs == combinations(ps, cs),
            ps == expand(opt_text(filters.product_type), known_products()),
            cs == expand(opt_text(filters.data_category), known_categories()),
            !window_rejected(*filters),
            (date_range.start@, date_range.end@) == window_of(filters.timestamp_range),
            k <= pairs.len(),
            renewable_targets(all_pairs.take(k as int)) matches Some(t) && plan_views(plans@)
                == target_views(t, date_range.start@, date_range.end@, base_url@),
        decreases pairs.len() - k,
    {
        let (product, category) = pairs[k];
        assert(all_pairs[k as int] == (product@, category@));
        assert(all_pairs.take(k + 1).drop_last() =~= all_pairs.take(k as int));
        assert(all_pairs.take(k + 1).last() == all_pairs[k as int]);
        let names = match map_product_to_api(product, category) {
            Ok(v) => v,
            Err(e) => {
                proof {
                    lemma_targets_fail_extends(all_pairs, k + 1);
                }
                return Err(e);
            },
        };
        let endpoint = match map_category_to_endpoint(category) {
            Ok(e) => e,
            Err(e) => {
                proof {
                    lemma_targets_fail_extends(all_pairs, k + 1);
                }
                return Err(e);
            },
        };
        let ghost before = plans@;
        let ghost prev = renewable_targets(all_pairs.take(k as int))->Some_0;
        let ghost added = str_views(names@).map_values(|n: Seq<char>| (endpoint@, Some(n)));
        let mut m: usize = 0;
        while m < names.len()
            invariant
                0 <= m <= names.len(),
                plan_views(plans@) == target_views(
                    prev + added.take(m as int),
                    date_range.start@,
                    date_range.end@,
                    base_url@,
                ),
                added == str_views(names@).map_values(|n: Seq<char>| (endpoint@, Some(n))),
            decreases names.len() - m,
        {
            let plan = make_plan(
                base_url,
                endpoint,
                Some(names[m]),
                &date_range.start,
                &date_range.end,
            );
            let ghost before_m = plans@;
            plans.push(plan);
            proof {
                assert(added[m as int] == (endpoint@, Some(names@[m as int]@)));
                assert(plans@ == before_m.push(plan));
                assert(plan_views(plans@) =~= plan_views(before_m).push(plan@));
                assert(prev + added.take(m + 1) =~= (prev + added.take(m as int)).push(
                    added[m as int],
                ));
                assert(plan_views(plans@) =~= target_views(
                    prev + added.take(m + 1),
                    date_range.start@,
                    date_range.end@,
                    base_url@,
                ));
            }
            m = m + 1;
        }
        proof {
            assert(added.take(m as int) =~= added);
        }
        k = k + 1;
    }
    assert(all_pairs.take(k as int) =~= all_pairs);
    Ok(plans)
}

/// Plans of the market-price table: the filtered price type, or all four
/// price endpoints in declaration order.
pub fn route_prices(filters: &QualFilters, base_url: &str) -> (r: Result<
    Vec<QueryPlan>,
    NtpFdwError,
>)
    ensures
        delivers(r, price_outcome(*filters, base_url@)),
        window_rejected(*filters) ==> (r matches Err(e) && is_bad_request(e)),
{
    let date_range = match scan_window(filters) {
        Ok(d) => d,
        Err(e) => return Err(e),
    };
    let endpoints: Vec<&str> = match &filters.price_type {
        Some(price_type) => match map_price_type_to_endpoint(price_type.as_str()) {
            Ok(e) => vec![e],
            Err(e) => return Err(e),
        },
        None => vec!["Spotmarktpreise", "NegativePreise", "marktpraemie", "Jahresmarktpraemie"],
    };
    let ghost es = str_views(endpoints@);
    let ghost targets = es.map_values(|e: Seq<char>| (e, None::<Seq<char>>));
    proof {
        match opt_text(filters.price_type) {
            Some(p) => {
                assert(es =~= seq![price_endpoint(p)->Some_0]);
            },
            None => {
                assert(es =~= known_price_endpoints());
            },
        }
    }
    let mut plans: Vec<QueryPlan> = Vec::new();
    let mut i: usize = 0;
    while i < endpoints.len()
        invariant
            i <= endpoints.len(),
            es == str_views(endpoints@),
            targets == es.map_values(|e: Seq<char>| (e, None::<Seq<char>>)),
            plan_views(plans@) == target_views(
                targets.take(i as int),
                date_range.start@,
                date_range.end@,
                base_url@,
            ),
        decreases endpoints.len() - i,
    {
        let plan = make_plan(base_url, endpoints[i], None, &date_range.start, &date_range.end);
        let ghost before = plans@;
        plans.push(plan);
        proof {
            assert(targets[i as int] == (endpoints@[i as int]@, None::<Seq<char>>));
            assert(plans@ == before.push(plan));
            assert(plan_views(plans@) =~= plan_views(before).push(plan@));
            assert(targets.take(i + 1) =~= targets.take(i as int).push(targets[i as int]));
            assert(plan_views(plans@) =~= target_views(
                targets.take(i + 1),
                date_range.start@,
                date_range.end@,
                base_url@,
            ));
        }
        i = i + 1;
    }
    assert(targets.take(i as int) =~= targets);
    Ok(plans)
}

fn route_single(filters: &QualFilters, base_url: &str, endpoint: &str) -> (r: Result<
    Vec<QueryPlan>,
    NtpFdwError,
>)
    ensures
        delivers(r, single_outcome(*filters, base_url@, endpoint@)),
        window_rejected(*filters) ==> (r matches Err(e) && is_bad_request(e)),
{
    let date_range = match scan_window(filters) {
        Ok(d) => d,
        Err(e) => return Err(e),
    };
    let plan = make_plan(base_url, endpoint, None, &date_range.start, &date_range.end);
    let plans = vec![plan];
    assert(plan_views(plans@) =~= target_views(
        seq![(endpoint@, None)],
        date_range.start@,
        date_range.end@,
        base_url@,
    ));
    Ok(plans)
}

/// The one plan of the grid-status table (TrafficLight endpoint).
pub fn route_grid_status(filters: &QualFilters, base_url: &str) -> (r: Result<
    Vec<QueryPlan>,
    NtpFdwError,
>)
    ensures
        delivers(r, single_outcome(*filters, base_url@, "TrafficLight"@)),
        window_rejected(*filters) ==> (r matches Err(e) && is_bad_request(e)),
{
    route_single(filters, base_url, "TrafficLight")
}

/// The one plan of the redispatch table.
pub fn route_redispatch(filters: &QualFilters, base_url: &str) -> (r: Result<
    Vec<QueryPlan>,
    NtpFdwError,
>)
    ensures
        delivers(r, single_outcome(*filters, base_url@, "redispatch"@)),
        window_rejected(*filters) ==> (r matches Err(e) && is_bad_request(e)),
{
    route_single(filters, base_url, "redispatch")
}

/// Fetch plans of a scan, dispatched on the logical table.
pub fn route_query(filters: &QualFilters, base_url: &str) -> (r: Result<
    Vec<QueryPlan>,
    NtpFdwError,
>)
    ensures
        delivers(r, route_outcome(*filters, base_url@)),
{
    let table = filters.table_name.as_str();
    if same_text(table, "renewable_energy_timeseries") {
        route_renewable(filters, base_url)
    } else if same_text(table, "electricity_market_prices") {
        route_prices(filters, base_url)
    } else if same_text(table, "redispatch_events") {
        route_redispatch(filters, base_url)
    } else if same_text(table, "grid_status_timeseries") {
        route_grid_status(filters, base_url)
    } else {
        let mut msg = owned("Unknown table: ");
        msg.append(table);
        msg.append(
            ". Expected one of: renewable_energy_timeseries, electricity_market_prices, redispatch_events, grid_status_timeseries.",
        );
        Err(NtpFdwError::Generic(msg))
    }
}

/// Routing is a function of its inputs: two scans with the same filters and
/// base URL get the same plans, in the same order, or both fail.
pub proof fn lemma_routing_deterministic(
    filters: QualFilters,
    base_url: Seq<char>,
    r1: Result<Vec<QueryPlan>, NtpFdwError>,
    r2: Result<Vec<QueryPlan>, NtpFdwError>,
)
    requires
        delivers(r1, route_outcome(filters, base_url)),
        delivers(r2, route_outcome(filters, base_url)),
    ensures
        r1 is Ok <==> r2 is Ok,
        r1 is Ok ==> plan_views(r1->Ok_0@) == plan_views(r2->Ok_0@),
{
}

} // verus!
