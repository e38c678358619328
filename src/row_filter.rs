//! Post-fetch row filter: restores the full timestamp precision that the
//! day-granular remote window cannot express.
use crate::calendar::{parse_rfc3339_micros, rfc3339_micros};
use crate::query_router::{opt_text, TimestampBounds};
use crate::text::{same_text, text_views};
use vstd::prelude::*;

verus! {

/// One row of the grid-status table.
#[derive(Debug, Clone, PartialEq)]
pub struct GridStatusRow {
    /// Start of the status interval, RFC 3339
    pub timestamp_utc: String,
    /// End of the status interval, RFC 3339
    pub interval_end_utc: String,
    /// Traffic-light status, e.g. `GREEN` or `RED_NEG`
    pub grid_status: String,
    /// Remote endpoint the row came from
    pub source_endpoint: String,
}

/// `t` satisfies the lower bound; an unknown operator does not restrict.
pub open spec fn lower_holds(t: int, b: TimestampBounds) -> bool {
    match (b.start, opt_text(b.start_operator)) {
        (Some(s), Some(op)) => if op == ">="@ {
            t >= s
        } else if op == ">"@ {
            t > s
        } else if op == "="@ {
            t == s
        } else {
            true
        },
        _ => true,
    }
}

/// `t` satisfies the upper bound; an unknown operator does not restrict.
pub open spec fn upper_holds(t: int, b: TimestampBounds) -> bool {
    match (b.end, opt_text(b.end_operator)) {
        (Some(e), Some(op)) => if op == "<"@ {
            t < e
        } else if op == "<="@ {
            t <= e
        } else if op == "="@ {
            t == e
        } else {
            true
        },
        _ => true,
    }
}

/// A row timestamp text meets the bounds; one that does not parse never does.
pub open spec fn timestamp_matches(ts: Seq<char>, b: TimestampBounds) -> bool {
    match rfc3339_micros(ts) {
        Some(t) => lower_holds(t as int, b) && upper_holds(t as int, b),
        None => false,
    }
}

/// Checks an RFC 3339 row timestamp against every present bound with its
/// recorded operator.
pub fn matches_timestamp_bounds(timestamp_str: &str, bounds: &TimestampBounds) -> (r: bool)
    ensures
        r == timestamp_matches(timestamp_str@, *bounds),
{
    let t = match parse_rfc3339_micros(timestamp_str) {
        Some(v) => v,
        None => return false,
    };
    if let Some(s) = bounds.start {
        if let Some(op) = &bounds.start_operator {
            let op = op.as_str();
            let ok = if same_text(op, ">=") {
                t >= s
            } else if same_text(op, ">") {
                t > s
            } else if same_text(op, "=") {
                t == s
            } else {
                true
            };
            if !ok {
                return false;
            }
        }
    }
    if let Some(e) = bounds.end {
        if let Some(op) = &bounds.end_operator {
            let op = op.as_str();
            let ok = if same_text(op, "<") {
                t < e
            } else if same_text(op, "<=") {
                t <= e
            } else if same_text(op, "=") {
                t == e
            } else {
                true
            };
            if !ok {
                return false;
            }
        }
    }
    true
}

/// Whether a row with timestamp text `ts` is kept; with no bounds every row is.
pub open spec fn keeps(ts: Seq<char>, bounds: Option<TimestampBounds>) -> bool {
    match bounds {
        None => true,
        Some(b) => timestamp_matches(ts, b),
    }
}

/// Of the first `n` rows, those whose timestamp (`ts[i]` for row `i`) is
/// kept, in their order.
pub open spec fn kept_prefix<T>(
    rows: Seq<T>,
    ts: Seq<Seq<char>>,
    bounds: Option<TimestampBounds>,
    n: int,
) -> Seq<T>
    decreases n,
{
    if n <= 0 {
        seq![]
    } else {
        let prev = kept_prefix(rows, ts, bounds, n - 1);
        if keeps(ts[n - 1], bounds) {
            prev.push(rows[n - 1])
        } else {
            prev
        }
    }
}

/// The rows whose timestamp is kept, in their order.
pub open spec fn kept_rows<T>(rows: Seq<T>, ts: Seq<Seq<char>>, bounds: Option<TimestampBounds>) -> Seq<
    T,
> {
    kept_prefix(rows, ts, bounds, rows.len() as int)
}

/// Keeps the rows whose timestamp meets every bound, in order; row `i` has
/// timestamp text `timestamps[i]`. With no bounds every row is kept.
pub fn filter_rows<T>(rows: Vec<T>, timestamps: &Vec<String>, bounds: &Option<TimestampBounds>) -> (r: Vec<T>)
    requires
        rows@.len() == timestamps@.len(),
    ensures
        r@ == kept_rows(rows@, text_views(timestamps@), *bounds),
{
    let ghost orig = rows@;
    let ghost ts = text_views(timestamps@);
    let n = rows.len();
    let mut rows = rows;
    let mut stack: Vec<T> = Vec::new();
    while rows.len() > 0
        invariant
            n == orig.len(),
            rows@ == orig.take(rows.len() as int),
            stack.len() + rows.len() == n,
            forall|j: int| 0 <= j < stack.len() ==> stack@[j] == orig[n - 1 - j],
        decreases rows.len(),
    {
        let x = rows.pop().unwrap();
        stack.push(x);
        assert(rows@ =~= orig.take(rows.len() as int));
    }
    let mut kept: Vec<T> = Vec::new();
    while stack.len() > 0
        invariant
            n == orig.len(),
            n == timestamps@.len(),
            ts == text_views(timestamps@),
            stack.len() <= n,
            forall|j: int| 0 <= j < stack.len() ==> stack@[j] == orig[n - 1 - j],
            kept@ == kept_prefix(orig, ts, *bounds, n - stack.len()),
        decreases stack.len(),
    {
        let i = n - stack.len();
        let x = stack.pop().unwrap();
        assert(x == orig[i as int]);
        let keep = match bounds {
            None => true,
            Some(b) => matches_timestamp_bounds(timestamps[i].as_str(), b),
        };
        assert(ts[i as int] == timestamps@[i as int]@);
        if keep {
            kept.push(x);
        }
    }
    kept
}

/// Timestamps of grid-status rows.
pub open spec fn grid_timestamps(rows: Seq<GridStatusRow>) -> Seq<Seq<char>> {
    rows.map_values(|r: GridStatusRow| r.timestamp_utc@)
}

/// Keeps the grid-status rows whose timestamp meets every bound.
pub fn filter_grid_status_rows(rows: Vec<GridStatusRow>, bounds: &Option<TimestampBounds>) -> (r:
    Vec<GridStatusRow>)
    ensures
        r@ == kept_rows(rows@, grid_timestamps(rows@), *bounds),
{
    let mut timestamps: Vec<String> = Vec::new();
    let mut i: usize = 0;
    while i < rows.len()
        invariant
            i <= rows.len(),
            text_views(timestamps@) == grid_timestamps(rows@).take(i as int),
        decreases rows.len() - i,
    {
        let ghost before = timestamps@;
        let t = rows[i].timestamp_utc.clone();
        timestamps.push(t);
        assert(timestamps@ == before.push(t));
        assert(text_views(timestamps@) =~= text_views(before).push(t@));
        assert(grid_timestamps(rows@)[i as int] == rows@[i as int].timestamp_utc@);
        assert(text_views(timestamps@) =~= grid_timestamps(rows@).take(i + 1));
        i = i + 1;
    }
    assert(grid_timestamps(rows@).take(i as int) =~= grid_timestamps(rows@));
    filter_rows(rows, &timestamps, bounds)
}

proof fn lemma_all_kept<T>(rows: Seq<T>, ts: Seq<Seq<char>>, bounds: Option<TimestampBounds>, n: int)
    requires
        0 <= n <= rows.len(),
        n <= ts.len(),
        forall|i: int| 0 <= i < n ==> keeps(#[trigger] ts[i], bounds),
    ensures
        kept_prefix(rows, ts, bounds, n) == rows.take(n),
    decreases n,
{
    if n > 0 {
        lemma_all_kept(rows, ts, bounds, n - 1);
        assert(rows.take(n) =~= rows.take(n - 1).push(rows[n - 1]));
    } else {
        assert(rows.take(0) =~= seq![]);
    }
}

proof fn lemma_kept_shape<T>(rows: Seq<T>, ts: Seq<Seq<char>>, bounds: Option<TimestampBounds>, n: int)
    requires
        0 <= n <= rows.len(),
        n <= ts.len(),
    ensures
        kept_prefix(rows, ts, bounds, n).len() == kept_prefix(ts, ts, bounds, n).len(),
        forall|i: int|
            0 <= i < kept_prefix(ts, ts, bounds, n).len() ==> keeps(
                #[trigger] kept_prefix(ts, ts, bounds, n)[i],
                bounds,
            ),
    decreases n,
{
    if n > 0 {
        lemma_kept_shape(rows, ts, bounds, n - 1);
    }
}

/// Filtering is idempotent: filtering the kept rows again, each with its
/// own timestamp, keeps them all.
pub proof fn lemma_filter_rows_idempotent<T>(
    rows: Seq<T>,
    ts: Seq<Seq<char>>,
    bounds: Option<TimestampBounds>,
)
    requires
        rows.len() == ts.len(),
    ensures
        kept_rows(kept_rows(rows, ts, bounds), kept_rows(ts, ts, bounds), bounds) == kept_rows(
            rows,
            ts,
            bounds,
        ),
{
    let n = rows.len() as int;
    let r1 = kept_rows(rows, ts, bounds);
    let t1 = kept_rows(ts, ts, bounds);
    lemma_kept_shape(rows, ts, bounds, n);
    lemma_all_kept(r1, t1, bounds, r1.len() as int);
    assert(r1.take(r1.len() as int) =~= r1);
}

/// Grid-status rows filtered twice are the rows filtered once.
pub proof fn lemma_filter_grid_status_rows_idempotent(
    rows: Seq<GridStatusRow>,
    bounds: Option<TimestampBounds>,
)
    ensures
        ({
            let once = kept_rows(rows, grid_timestamps(rows), bounds);
            kept_rows(once, grid_timestamps(once), bounds) == once
        }),
{
    let once = kept_rows(rows, grid_timestamps(rows), bounds);
    lemma_kept_timestamps(rows, bounds, rows.len() as int);
    lemma_all_kept(once, grid_timestamps(once), bounds, once.len() as int);
    assert(once.take(once.len() as int) =~= once);
}

proof fn lemma_kept_timestamps(rows: Seq<GridStatusRow>, bounds: Option<TimestampBounds>, n: int)
    requires
        0 <= n <= rows.len(),
    ensures
        forall|i: int|
            0 <= i < kept_prefix(rows, grid_timestamps(rows), bounds, n).len() ==> keeps(
                (#[trigger] kept_prefix(rows, grid_timestamps(rows), bounds, n)[i]).timestamp_utc@,
                bounds,
            ),
    decreases n,
{
    if n > 0 {
        lemma_kept_timestamps(rows, bounds, n - 1);
        assert(grid_timestamps(rows)[n - 1] == rows[n - 1].timestamp_utc@);
        let prev = kept_prefix(rows, grid_timestamps(rows), bounds, n - 1);
        let cur = kept_prefix(rows, grid_timestamps(rows), bounds, n);
        assert forall|i: int| 0 <= i < cur.len() implies keeps(
            (#[trigger] cur[i]).timestamp_utc@,
            bounds,
        ) by {
            if i < prev.len() {
                assert(cur[i] == prev[i]);
            }
        }
    }
}

/// Without bounds the filter is the identity on the row sequence.
pub proof fn lemma_filter_rows_without_bounds<T>(rows: Seq<T>, ts: Seq<Seq<char>>)
    requires
        rows.len() == ts.len(),
    ensures
        kept_rows(rows, ts, None) == rows,
{
    lemma_all_kept(rows, ts, None, rows.len() as int);
    assert(rows.take(rows.len() as int) =~= rows);
}

} // verus!
