//! Resource Provider behavior shared by every record type: assembling a Page
//! Result from a store response and degrading a failed count to "unknown".
//!
//! Each provider keeps only its sort and search fields; a row fetch is
//! otherwise stateless, so concurrent fetches with different ranges are
//! independent. The store round-trip itself happens outside the library;
//! what is decided from its response is verified here.

use crate::query::RowRange;
use vstd::prelude::*;

verus! {

/// The rows a page keeps from a store response: at most as many as the
/// requested range asked for.
pub open spec fn page_rows_spec<R>(range: RowRange, rows: Seq<R>) -> Seq<R> {
    if rows.len() <= range.spec_len() {
        rows
    } else {
        rows.take(range.spec_len())
    }
}

/// The effective range of a page: it starts where the request started and
/// covers exactly the rows returned.
pub open spec fn effective_range_spec<R>(range: RowRange, rows: Seq<R>) -> RowRange {
    RowRange { start: range.start, end: (range.start + page_rows_spec(range, rows).len()) as usize }
}

/// Assemble a Page Result from the rows the store returned for a range.
///
/// A short page signals end-of-data, not an error; a response longer than
/// the request is clipped so the returned range never exceeds the requested
/// one.
pub fn make_page<R>(range: RowRange, rows: Vec<R>) -> (p: (Vec<R>, RowRange))
    requires
        range.wf(),
    ensures
        p.0@ == page_rows_spec(range, rows@),
        p.1 == effective_range_spec(range, rows@),
        p.1.start == range.start,
        p.1.end - p.1.start == p.0@.len(),
        p.1.wf(),
        p.1.end <= range.end,
{
    let ghost orig = rows@;
    let mut kept = rows;
    let requested = range.end - range.start;
    if kept.len() > requested {
        kept.truncate(requested);
        proof {
            assert(kept@ =~= page_rows_spec(range, orig));
        }
    }
    let len = kept.len();
    let effective = RowRange { start: range.start, end: range.start + len };
    (kept, effective)
}

/// Degrade a count outcome to an advisory total: any failure becomes
/// "unknown" rather than propagating, since the total is for display only.
pub fn row_count_from_result(outcome: Result<usize, String>) -> (r: Option<usize>)
    ensures
        outcome matches Ok(n) ==> r == Some(n),
        outcome is Err ==> r is None,
{
    match outcome {
        Ok(n) => Some(n),
        Err(_) => None,
    }
}

/// Law: a Page Result stays within the requested window. For every range
/// `[s, e)` with `s <= e` and every store response, the effective range
/// starts at `s` and spans at most `e - s` rows.
pub proof fn lemma_page_within_request<R>(range: RowRange, rows: Seq<R>)
    requires
        range.wf(),
    ensures
        effective_range_spec(range, rows).start == range.start,
        effective_range_spec(range, rows).end - effective_range_spec(range, rows).start
            <= range.spec_len(),
        effective_range_spec(range, rows).wf(),
{
}

/// Law: a row fetch is idempotent. The page is a function of the requested
/// range and the store's response alone, and the issued query is a function
/// of the provider's sort, search and the range alone; so two fetches with
/// the same Query Spec, between which neither the provider nor the store
/// changed, yield identical rows.
pub proof fn lemma_get_rows_idempotent<R>(
    range: RowRange,
    rows1: Seq<R>,
    rows2: Seq<R>,
)
    requires
        rows1 == rows2,
    ensures
        page_rows_spec(range, rows1) == page_rows_spec(range, rows2),
        effective_range_spec(range, rows1) == effective_range_spec(range, rows2),
{
}

} // verus!
