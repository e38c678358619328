//! Named columns of delimited payloads: header checks and field lookup by
//! column name.
use crate::error::ParseError;
use crate::text::{owned, same_text, text_views};
use vstd::prelude::*;

verus! {

/// `name` is one of the headers.
pub open spec fn has_column(headers: Seq<Seq<char>>, name: Seq<char>) -> bool {
    exists|i: int| 0 <= i < headers.len() && headers[i] == name
}

/// Position of the first header equal to `name`.
pub open spec fn first_position(headers: Seq<Seq<char>>, name: Seq<char>, i: int) -> bool {
    0 <= i < headers.len() && headers[i] == name && forall|j: int| 0 <= j < i ==> headers[j] != name
}

/// Position of the first header named `field_name`.
pub fn column_index(headers: &Vec<String>, field_name: &str) -> (r: Result<usize, ParseError>)
    ensures
        match r {
            Ok(i) => first_position(text_views(headers@), field_name@, i as int),
            Err(e) => !has_column(text_views(headers@), field_name@) && (e matches ParseError::MissingColumn(
                c,
            ) && c@ == field_name@),
        },
{
    let mut i: usize = 0;
    while i < headers.len()
        invariant
            i <= headers.len(),
            forall|j: int| 0 <= j < i ==> text_views(headers@)[j] != field_name@,
        decreases headers.len() - i,
    {
        if same_text(headers[i].as_str(), field_name) {
            return Ok(i);
        }
        i = i + 1;
    }
    Err(ParseError::MissingColumn(owned(field_name)))
}

/// The field of `record` under the first header named `field_name`.
pub fn get_field(record: &Vec<String>, headers: &Vec<String>, field_name: &str) -> (r: Result<
    String,
    ParseError,
>)
    ensures
        match r {
            Ok(v) => exists|i: int|
                first_position(text_views(headers@), field_name@, i) && i < record@.len() && v@
                    == #[trigger] record@[i]@,
            Err(e) => e matches ParseError::MissingColumn(c) && c@ == field_name@ && (!has_column(
                text_views(headers@),
                field_name@,
            ) || exists|i: int|
                first_position(text_views(headers@), field_name@, i) && i >= record@.len()),
        },
{
    let idx = match column_index(headers, field_name) {
        Ok(i) => i,
        Err(e) => return Err(e),
    };
    if idx < record.len() {
        let v = record[idx].clone();
        assert(first_position(text_views(headers@), field_name@, idx as int) && idx < record@.len()
            && v@ == record@[idx as int]@);
        Ok(v)
    } else {
        Err(ParseError::MissingColumn(owned(field_name)))
    }
}

/// Checks that every required column is present; the first missing one is
/// the error.
pub fn require_columns(headers: &Vec<String>, required: &Vec<&str>) -> (r: Result<(), ParseError>)
    ensures
        r is Ok <==> forall|k: int|
            0 <= k < required@.len() ==> has_column(text_views(headers@), #[trigger] required@[k]@),
        r matches Err(e) ==> exists|k: int|
            0 <= k < required@.len() && !has_column(text_views(headers@), #[trigger] required@[k]@)
                && (forall|j: int|
                0 <= j < k ==> has_column(text_views(headers@), required@[j]@)) && (e matches ParseError::MissingColumn(c) && c@ == required@[k]@),
{
    let mut k: usize = 0;
    while k < required.len()
        invariant
            k <= required.len(),
            forall|j: int|
                0 <= j < k ==> has_column(text_views(headers@), #[trigger] required@[j]@),
        decreases required.len() - k,
    {
        match column_index(headers, required[k]) {
            Ok(i) => {
                assert(text_views(headers@)[i as int] == required@[k as int]@);
            },
            Err(e) => return Err(e),
        }
        k = k + 1;
    }
    Ok(())
}

/// Checks the header of a renewable-energy payload.
pub fn validate_renewable_header(headers: &Vec<String>) -> (r: Result<(), ParseError>)
    ensures
        r is Ok <==> forall|k: int|
            0 <= k < renewable_columns().len() ==> has_column(
                text_views(headers@),
                #[trigger] renewable_columns()[k],
            ),
{
    let required = vec![
        "Datum",
        "von",
        "bis",
        "Zeitzone von",
        "Zeitzone bis",
        "50Hertz (MW)",
        "Amprion (MW)",
        "TenneT TSO (MW)",
        "TransnetBW (MW)",
    ];
    assert(required@.map_values(|s: &str| s@) =~= renewable_columns());
    let r = require_columns(headers, &required);
    proof {
        assert forall|k: int| 0 <= k < required@.len() implies required@[k]@
            == renewable_columns()[k] by {
            assert(required@.map_values(|s: &str| s@)[k] == required@[k]@);
        }
    }
    r
}

/// Columns that a renewable-energy payload must have.
pub open spec fn renewable_columns() -> Seq<Seq<char>> {
    seq![
        "Datum"@,
        "von"@,
        "bis"@,
        "Zeitzone von"@,
        "Zeitzone bis"@,
        "50Hertz (MW)"@,
        "Amprion (MW)"@,
        "TenneT TSO (MW)"@,
        "TransnetBW (MW)"@,
    ]
}

/// Columns that a spot-price payload must have.
pub open spec fn price_columns() -> Seq<Seq<char>> {
    seq![
        "Datum"@,
        "von"@,
        "bis"@,
        "Zeitzone von"@,
        "Zeitzone bis"@,
        "Spotmarktpreis in ct/kWh"@,
    ]
}

/// Checks the header of a spot-price payload.
pub fn validate_price_header(headers: &Vec<String>) -> (r: Result<(), ParseError>)
    ensures
        r is Ok <==> forall|k: int|
            0 <= k < price_columns().len() ==> has_column(
                text_views(headers@),
                #[trigger] price_columns()[k],
            ),
{
    let required = vec!["Datum", "von", "bis", "Zeitzone von", "Zeitzone bis", "Spotmarktpreis in ct/kWh"];
    assert(required@.map_values(|s: &str| s@) =~= price_columns());
    let r = require_columns(headers, &required);
    proof {
        assert forall|k: int| 0 <= k < required@.len() implies required@[k]@
            == price_columns()[k] by {
            assert(required@.map_values(|s: &str| s@)[k] == required@[k]@);
        }
    }
    r
}

} // verus!
