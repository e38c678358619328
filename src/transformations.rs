//! Small value mappings used when rows are built from remote payloads:
//! product, category, price type, direction and grid-status names.
use crate::error::ParseError;
use crate::text::{owned, push_char, same_text};
use vstd::prelude::*;

verus! {

/// Lower-case form of a text, as `str::to_lowercase` gives it.
pub uninterp spec fn lower_of(s: Seq<char>) -> Seq<char>;

/// A text without leading and trailing whitespace, as `str::trim` gives it.
pub uninterp spec fn trimmed_of(s: Seq<char>) -> Seq<char>;

/// Relies on `str::to_lowercase`: the result depends on the characters alone.
#[verifier::external_body]
fn lowercase(s: &str) -> (r: String)
    ensures
        r@ == lower_of(s@),
{
    s.to_lowercase()
}

/// Relies on `str::trim`: the result depends on the characters alone.
#[verifier::external_body]
fn trim_whitespace(s: &str) -> (r: &str)
    ensures
        r@ == trimmed_of(s@),
{
    s.trim()
}

/// `pat` occurs in `s` as a contiguous run of characters.
pub open spec fn contains_text(s: Seq<char>, pat: Seq<char>) -> bool {
    exists|i: int| 0 <= i <= s.len() - pat.len() && #[trigger] s.subrange(i, i + pat.len()) == pat
}

/// Whether `pat` occurs in `s`.
pub fn contains(s: &str, pat: &str) -> (r: bool)
    ensures
        r == contains_text(s@, pat@),
{
    let n = s.unicode_len();
    let m = pat.unicode_len();
    if m > n {
        return false;
    }
    if m == 0 {
        assert(s@.subrange(0, 0 + pat@.len() as int) =~= pat@);
        return true;
    }
    let mut i: usize = 0;
    while i <= n - m
        invariant
            n == s@.len(),
            m == pat@.len(),
            1 <= m <= n,
            i <= n - m + 1,
            forall|j: int| 0 <= j < i ==> #[trigger] s@.subrange(j, j + m) != pat@,
        decreases n - m + 1 - i,
    {
        if same_text(s.substring_char(i, i + m), pat) {
            return true;
        }
        i = i + 1;
    }
    false
}

/// Database product type of a remote product name.
pub open spec fn product_type_of(api_product: Seq<char>) -> Option<Seq<char>> {
    if api_product == "Solar"@ {
        Some("solar"@)
    } else if api_product == "Wind"@ || api_product == "Windonshore"@ {
        Some("wind_onshore"@)
    } else if api_product == "Windoffshore"@ {
        Some("wind_offshore"@)
    } else {
        None
    }
}

/// Maps a remote product name to the database product type.
pub fn normalize_product_type(api_product: &str) -> (r: Result<String, ParseError>)
    ensures
        match product_type_of(api_product@) {
            Some(p) => r matches Ok(v) && v@ == p,
            None => r matches Err(ParseError::UnknownProduct(v)) && v@ == api_product@,
        },
{
    if same_text(api_product, "Solar") {
        Ok(owned("solar"))
    } else if same_text(api_product, "Wind") || same_text(api_product, "Windonshore") {
        Ok(owned("wind_onshore"))
    } else if same_text(api_product, "Windoffshore") {
        Ok(owned("wind_offshore"))
    } else {
        Err(ParseError::UnknownProduct(owned(api_product)))
    }
}

/// Data category named by a lower-cased endpoint path.
pub open spec fn category_of_lowered(lower: Seq<char>) -> Option<Seq<char>> {
    if contains_text(lower, "onlinehochrechnung"@) {
        Some("online_actual"@)
    } else if contains_text(lower, "hochrechnung"@) {
        Some("extrapolation"@)
    } else {
        None
    }
}

/// Reads the data category from the lower-cased form of an endpoint path.
pub fn category_from_lowered(lower: &str, endpoint: &str) -> (r: Result<String, ParseError>)
    ensures
        match category_of_lowered(lower@) {
            Some(c) => r matches Ok(v) && v@ == c,
            None => r matches Err(ParseError::UnknownDataCategory(v)) && v@ == endpoint@,
        },
{
    if contains(lower, "onlinehochrechnung") {
        Ok(owned("online_actual"))
    } else if contains(lower, "hochrechnung") {
        Ok(owned("extrapolation"))
    } else {
        Err(ParseError::UnknownDataCategory(owned(endpoint)))
    }
}

/// Data category of an endpoint path, matched without regard to case.
pub fn extract_data_category(endpoint: &str) -> (r: Result<String, ParseError>)
    ensures
        match category_of_lowered(lower_of(endpoint@)) {
            Some(c) => r matches Ok(v) && v@ == c,
            None => r matches Err(ParseError::UnknownDataCategory(v)) && v@ == endpoint@,
        },
{
    let lower = lowercase(endpoint);
    category_from_lowered(lower.as_str(), endpoint)
}

/// Price type named by a lower-cased endpoint; spot market by default.
pub open spec fn price_type_of_lowered(lower: Seq<char>) -> Seq<char> {
    if contains_text(lower, "spotmarktpreise"@) {
        "spot_market"@
    } else if contains_text(lower, "jahresmarktpraemie"@) {
        "annual_market_value"@
    } else if contains_text(lower, "marktpraemie"@) {
        "market_premium"@
    } else if contains_text(lower, "negativepreise"@) {
        "negative_flag"@
    } else {
        "spot_market"@
    }
}

/// Reads the price type from the lower-cased form of an endpoint name.
pub fn price_type_from_lowered(lower: &str) -> (r: String)
    ensures
        r@ == price_type_of_lowered(lower@),
{
    if contains(lower, "spotmarktpreise") {
        owned("spot_market")
    } else if contains(lower, "jahresmarktpraemie") {
        owned("annual_market_value")
    } else if contains(lower, "marktpraemie") {
        owned("market_premium")
    } else if contains(lower, "negativepreise") {
        owned("negative_flag")
    } else {
        owned("spot_market")
    }
}

/// Price type of an endpoint name, matched without regard to case.
pub fn detect_price_type(endpoint: &str) -> (r: String)
    ensures
        r@ == price_type_of_lowered(lower_of(endpoint@)),
{
    let lower = lowercase(endpoint);
    price_type_from_lowered(lower.as_str())
}

/// `endpoint/product/date_from/date_to`, the traceability path of a row.
pub fn build_source_endpoint(endpoint: &str, product: &str, date_from: &str, date_to: &str) -> (r:
    String)
    ensures
        r@ == endpoint@ + "/"@ + product@ + "/"@ + date_from@ + "/"@ + date_to@,
{
    let mut out = owned(endpoint);
    out.append("/");
    out.append(product);
    out.append("/");
    out.append(date_from);
    out.append("/");
    out.append(date_to);
    out
}

/// Direction of a redispatch measure, from its German wording.
pub open spec fn direction_of(richtung: Seq<char>) -> Option<Seq<char>> {
    if richtung == "Wirkleistungseinspeisung erhöhen"@ {
        Some("increase_generation"@)
    } else if richtung == "Wirkleistungseinspeisung reduzieren"@ {
        Some("reduce_generation"@)
    } else {
        None
    }
}

/// Maps the German wording of a redispatch direction to its database value.
pub fn normalize_direction(richtung: &str) -> (r: Result<String, ParseError>)
    ensures
        match direction_of(richtung@) {
            Some(d) => r matches Ok(v) && v@ == d,
            None => r matches Err(ParseError::UnknownDirection(v)) && v@ == richtung@,
        },
{
    if same_text(richtung, "Wirkleistungseinspeisung erhöhen") {
        Ok(owned("increase_generation"))
    } else if same_text(richtung, "Wirkleistungseinspeisung reduzieren") {
        Ok(owned("reduce_generation"))
    } else {
        Err(ParseError::UnknownDirection(owned(richtung)))
    }
}

/// The six traffic-light values, case-sensitive.
pub open spec fn is_grid_status(v: Seq<char>) -> bool {
    v == "GREEN"@ || v == "GREEN_NEG"@ || v == "YELLOW"@ || v == "YELLOW_NEG"@ || v == "RED"@
        || v == "RED_NEG"@
}

/// Accepts a traffic-light status value unchanged, rejects any other.
pub fn validate_grid_status(value: &str) -> (r: Result<String, ParseError>)
    ensures
        is_grid_status(value@) ==> (r matches Ok(v) && v@ == value@),
        !is_grid_status(value@) ==> (r matches Err(ParseError::InvalidGridStatus(v)) && v@
            == value@),
{
    if same_text(value, "GREEN") || same_text(value, "GREEN_NEG") || same_text(value, "YELLOW")
        || same_text(value, "YELLOW_NEG") || same_text(value, "RED") || same_text(
        value,
        "RED_NEG",
    ) {
        Ok(owned(value))
    } else {
        Err(ParseError::InvalidGridStatus(owned(value)))
    }
}

/// `s` with every space turned into an underscore.
pub open spec fn underscored(s: Seq<char>) -> Seq<char> {
    s.map_values(
        |c: char|
            if c == ' ' {
                '_'
            } else {
                c
            },
    )
}

/// Product of an annual market-value row, from a trimmed category label.
pub open spec fn annual_product_of_trimmed(t: Seq<char>) -> Seq<char> {
    if t == "JW"@ {
        "annual_overall"@
    } else if t == "JW Wind an Land"@ {
        "wind_onshore"@
    } else if t == "JW Wind auf See"@ {
        "wind_offshore"@
    } else if t == "JW Solar"@ {
        "solar"@
    } else {
        underscored(lower_of(t))
    }
}

fn spaces_to_underscores(s: &str) -> (r: String)
    ensures
        r@ == underscored(s@),
{
    let n = s.unicode_len();
    let mut out = String::new();
    let mut i: usize = 0;
    while i < n
        invariant
            n == s@.len(),
            i <= n,
            out@ == underscored(s@.take(i as int)),
        decreases n - i,
    {
        let c = s.get_char(i);
        push_char(
            &mut out,
            if c == ' ' {
                '_'
            } else {
                c
            },
        );
        assert(s@.take(i + 1) =~= s@.take(i as int).push(c));
        assert(out@ =~= underscored(s@.take(i + 1)));
        i = i + 1;
    }
    assert(s@.take(n as int) =~= s@);
    out
}

/// Maps an annual market-value category label to a product value; other
/// labels become lower case with spaces as underscores.
pub fn normalize_annual_product(category: &str) -> (r: String)
    ensures
        r@ == annual_product_of_trimmed(trimmed_of(category@)),
{
    let t = trim_whitespace(category);
    if same_text(t, "JW") {
        owned("annual_overall")
    } else if same_text(t, "JW Wind an Land") {
        owned("wind_onshore")
    } else if same_text(t, "JW Wind auf See") {
        owned("wind_offshore")
    } else if same_text(t, "JW Solar") {
        owned("solar")
    } else {
        let lower = lowercase(t);
        spaces_to_underscores(lower.as_str())
    }
}

} // verus!
