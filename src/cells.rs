//! Grid-status rows as the cell values of the projected columns.
use crate::row_filter::GridStatusRow;
use crate::text::owned;
use crate::text::same_text;
use vstd::prelude::*;

verus! {

/// A cell value handed to the host.
#[derive(Debug, Clone, PartialEq)]
pub enum CellValue {
    /// Microseconds since the epoch
    Timestamptz(i64),
    Text(String),
}

/// Microseconds since the epoch of a text that parses as a UTC date-time.
pub uninterp spec fn utc_text_micros(s: Seq<char>) -> Option<i64>;

/// Relies on `str::parse::<chrono::DateTime<chrono::Utc>>` and
/// `timestamp_micros`; the error is the parser's message.
#[verifier::external_body]
fn parse_utc_micros(s: &str) -> (r: Result<i64, String>)
    ensures
        match r {
            Ok(v) => utc_text_micros(s@) == Some(v),
            Err(_) => utc_text_micros(s@) is None,
        },
{
    s.parse::<chrono::DateTime<chrono::Utc>>().map(|t| t.timestamp_micros()).map_err(|e| e.to_string())
}

/// Microseconds since the epoch of an ISO 8601 UTC timestamp.
pub fn timestamp_to_micros(timestamp_str: &str) -> (r: Result<i64, String>)
    ensures
        match utc_text_micros(timestamp_str@) {
            Some(v) => r == Ok::<i64, String>(v),
            None => r is Err,
        },
{
    match parse_utc_micros(timestamp_str) {
        Ok(v) => Ok(v),
        Err(e) => {
            let mut msg = owned("Failed to parse ISO 8601 timestamp '");
            msg.append(timestamp_str);
            msg.append("': ");
            msg.append(e.as_str());
            msg.append(". Expected format: YYYY-MM-DDTHH:MM:SSZ");
            Err(msg)
        },
    }
}

/// The cell of column `col` for `row`: `None` for a column the row does not
/// fill; timestamps as microseconds.
pub open spec fn grid_cell(row: GridStatusRow, col: Seq<char>) -> Option<Option<CellValue>> {
    if col == "timestamp_utc"@ {
        match utc_text_micros(row.timestamp_utc@) {
            Some(v) => Some(Some(CellValue::Timestamptz(v))),
            None => None,
        }
    } else if col == "interval_end_utc"@ {
        match utc_text_micros(row.interval_end_utc@) {
            Some(v) => Some(Some(CellValue::Timestamptz(v))),
            None => None,
        }
    } else if col == "grid_status"@ {
        Some(Some(CellValue::Text(row.grid_status)))
    } else if col == "source_endpoint"@ {
        Some(Some(CellValue::Text(row.source_endpoint)))
    } else {
        Some(None)
    }
}

pub open spec fn cell_view(c: Option<CellValue>) -> Option<Result<i64, Seq<char>>> {
    match c {
        Some(CellValue::Timestamptz(v)) => Some(Ok(v)),
        Some(CellValue::Text(s)) => Some(Err(s@)),
        None => None,
    }
}

/// Cells of one grid-status row for the projected columns, in their order.
///
/// Fails when a projected timestamp column does not parse.
pub fn grid_status_row_to_cells(row: &GridStatusRow, columns: &Vec<String>) -> (r: Result<
    Vec<Option<CellValue>>,
    String,
>)
    ensures
        r is Ok <==> forall|i: int| 0 <= i < columns@.len() ==> #[trigger] grid_cell(*row, columns@[i]@) is Some,
        r matches Ok(cells) ==> cells@.len() == columns@.len() && forall|i: int|
            0 <= i < columns@.len() ==> cell_view(#[trigger] cells@[i]) == cell_view(
                grid_cell(*row, columns@[i]@)->Some_0,
            ),
{
    let mut cells: Vec<Option<CellValue>> = Vec::new();
    let mut i: usize = 0;
    while i < columns.len()
        invariant
            i <= columns.len(),
            cells@.len() == i,
            forall|j: int| 0 <= j < i ==> #[trigger] grid_cell(*row, columns@[j]@) is Some,
            forall|j: int|
                0 <= j < i ==> cell_view(#[trigger] cells@[j]) == cell_view(
                    grid_cell(*row, columns@[j]@)->Some_0,
                ),
        decreases columns.len() - i,
    {
        let name = columns[i].as_str();
        let cell = if same_text(name, "timestamp_utc") {
            match timestamp_to_micros(row.timestamp_utc.as_str()) {
                Ok(v) => Some(CellValue::Timestamptz(v)),
                Err(e) => {
                    assert(grid_cell(*row, columns@[i as int]@) is None);
                    let mut msg = owned("timestamp_utc: ");
                    msg.append(e.as_str());
                    return Err(msg);
                },
            }
        } else if same_text(name, "interval_end_utc") {
            match timestamp_to_micros(row.interval_end_utc.as_str()) {
                Ok(v) => Some(CellValue::Timestamptz(v)),
                Err(e) => {
                    assert(grid_cell(*row, columns@[i as int]@) is None);
                    let mut msg = owned("interval_end_utc: ");
                    msg.append(e.as_str());
                    return Err(msg);
                },
            }
        } else if same_text(name, "grid_status") {
            Some(CellValue::Text(row.grid_status.clone()))
        } else if same_text(name, "source_endpoint") {
            Some(CellValue::Text(row.source_endpoint.clone()))
        } else {
            None
        };
        cells.push(cell);
        i = i + 1;
    }
    Ok(cells)
}

} // verus!
