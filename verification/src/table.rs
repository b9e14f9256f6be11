//! Table Controller: binds one Resource Provider to one rendered view.
//!
//! The controller owns the active Query Spec (sort, search, requested
//! range), the last successful Page Result and the advisory row count. It
//! debounces search input, handles sort-header clicks, and tags every
//! dispatched request with a generation so that a late response from a
//! superseded request lineage is discarded instead of overwriting newer
//! state.

use crate::query::{ColumnSort, RowRange};
use vstd::prelude::*;

verus! {

/// An opaque, monotonically bumped counter. Incrementing it is the only
/// externally visible mutation and the sole cross-component synchronization
/// primitive: consumers re-issue their current query when it changes.
#[derive(Clone, Copy, Debug, PartialEq, Eq, Structural)]
pub struct ReloadController {
    pub token: u64,
}

impl ReloadController {
    pub fn new() -> (r: ReloadController)
        ensures
            r.token == 0,
    {
        ReloadController { token: 0 }
    }

    /// Force consumers to re-run their current query.
    pub fn reload(&mut self)
        requires
            old(self).token < u64::MAX,
        ensures
            final(self).token == old(self).token + 1,
    {
        self.token = self.token + 1;
    }
}

/// Delay-and-coalesce for search keystrokes: each keystroke replaces the
/// pending edit and resets the timer; only the trailing edit fires, when a
/// poll finds the deadline passed.
pub struct Debouncer {
    pub pending: Option<String>,
    pub deadline: u64,
    pub delay: u64,
}

/// A keystroke stores the text and pushes the deadline out by the delay.
pub open spec fn keystroke_spec(d: Debouncer, text: String, now: u64) -> Debouncer {
    Debouncer { pending: Some(text), deadline: (now + d.delay) as u64, delay: d.delay }
}

/// Whether a poll at this instant releases the pending edit.
pub open spec fn poll_fires(d: Debouncer, now: u64) -> bool {
    d.pending is Some && now >= d.deadline
}

/// What a poll leaves behind and what it releases.
pub open spec fn poll_spec(d: Debouncer, now: u64) -> (Debouncer, Option<String>) {
    if poll_fires(d, now) {
        (Debouncer { pending: None, deadline: d.deadline, delay: d.delay }, d.pending)
    } else {
        (d, None)
    }
}

/// The debouncer state after a burst of keystrokes, each given as the text
/// typed and the instant it arrived.
pub open spec fn after_keystrokes(d: Debouncer, entries: Seq<(String, u64)>) -> Debouncer
    decreases entries.len(),
{
    if entries.len() == 0 {
        d
    } else {
        after_keystrokes(keystroke_spec(d, entries[0].0, entries[0].1), entries.drop_first())
    }
}

impl Debouncer {
    pub fn new(delay: u64) -> (d: Debouncer)
        ensures
            d.pending is None,
            d.deadline == 0,
            d.delay == delay,
    {
        Debouncer { pending: None, deadline: 0, delay }
    }

    /// Record a keystroke: remember its text, restart the timer.
    pub fn keystroke(&mut self, text: String, now: u64)
        requires
            now + old(self).delay <= u64::MAX,
        ensures
            *final(self) == keystroke_spec(*old(self), text, now),
    {
        self.pending = Some(text);
        self.deadline = now + self.delay;
    }

    /// Release the pending edit once the deadline has passed; a poll before
    /// the deadline, or with nothing pending, changes and fires nothing.
    pub fn poll(&mut self, now: u64) -> (fired: Option<String>)
        ensures
            *final(self) == poll_spec(*old(self), now).0,
            fired == poll_spec(*old(self), now).1,
    {
        if now >= self.deadline {
            let fired = self.pending.take();
            return fired;
        }
        None
    }
}

/// Law: N keystrokes within the debounce window produce exactly one
/// downstream search mutation, carrying the last keystroke's value. No
/// keystroke fires anything by itself; the first poll past the final
/// deadline fires the last text typed; and that poll clears the pending
/// edit, so no later poll fires again before the next keystroke.
pub proof fn lemma_debounce_coalesces(d: Debouncer, entries: Seq<(String, u64)>, now: u64)
    requires
        entries.len() > 0,
        now >= after_keystrokes(d, entries).deadline,
    ensures
        poll_spec(after_keystrokes(d, entries), now).1 == Some(entries.last().0),
        forall|later: u64|
            poll_spec(#[trigger] poll_spec(after_keystrokes(d, entries), now).0, later).1
                is None,
    decreases entries.len(),
{
    if entries.len() == 1 {
    } else {
        let d1 = keystroke_spec(d, entries[0].0, entries[0].1);
        lemma_debounce_coalesces(d1, entries.drop_first(), now);
        assert(entries.drop_first().last() == entries.last());
    }
}

/// One table's client-side state: the active Query Spec pieces it owns, the
/// generation of the most recently issued request, and the last successful
/// Page Result with the advisory total.
pub struct TableState<R> {
    /// Sort priority list; entry 0 is the primary key.
    pub sort: Vec<(usize, ColumnSort)>,
    /// The row window currently displayed.
    pub displayed: RowRange,
    /// Generation tag of the most recently dispatched request.
    pub generation: u64,
    /// Rows of the last successful fetch; kept on failure.
    pub rows: Vec<R>,
    /// Effective range of the last successful fetch.
    pub effective: RowRange,
    /// Advisory total matching the current filter; `None` means unknown.
    pub row_count: Option<usize>,
    /// The last fetch failure, surfaced without clearing rows.
    pub error: Option<String>,
}

/// Dispatching a request bumps the generation and records the window.
pub open spec fn dispatch_spec<R>(s: TableState<R>, range: RowRange) -> TableState<R> {
    TableState { generation: (s.generation + 1) as u64, displayed: range, ..s }
}

/// How a rows response settles: a stale generation is discarded; a current
/// success replaces the page; a current failure keeps the previous rows and
/// surfaces the message.
pub open spec fn rows_response_spec<R>(
    s: TableState<R>,
    g: u64,
    outcome: Result<(Vec<R>, RowRange), String>,
) -> TableState<R> {
    if g != s.generation {
        s
    } else {
        match outcome {
            Ok(p) => TableState { rows: p.0, effective: p.1, error: None, ..s },
            Err(e) => TableState { error: Some(e), ..s },
        }
    }
}

/// How a count response settles: stale generations are discarded; a current
/// one replaces the advisory total.
pub open spec fn count_response_spec<R>(s: TableState<R>, g: u64, total: Option<usize>) -> TableState<R> {
    if g != s.generation {
        s
    } else {
        TableState { row_count: total, ..s }
    }
}

/// The direction a sorted column toggles to.
pub open spec fn flip(dir: ColumnSort) -> ColumnSort {
    match dir {
        ColumnSort::Ascending => ColumnSort::Descending,
        ColumnSort::Descending => ColumnSort::Ascending,
    }
}

/// The sort entries with a column's own entries removed, order preserved.
pub open spec fn drop_column(sort: Seq<(usize, ColumnSort)>, col: usize) -> Seq<(usize, ColumnSort)>
    decreases sort.len(),
{
    if sort.len() == 0 {
        Seq::empty()
    } else {
        drop_column(sort.drop_last(), col) + (if sort.last().0 != col {
            seq![sort.last()]
        } else {
            Seq::empty()
        })
    }
}

/// Sort-click policy: clicking the primary column toggles its direction;
/// clicking any other column makes it the new primary ascending entry and
/// shifts the remaining entries down in priority.
pub open spec fn toggle_sort_spec(
    sort: Seq<(usize, ColumnSort)>,
    col: usize,
) -> Seq<(usize, ColumnSort)> {
    if sort.len() > 0 && sort[0].0 == col {
        seq![(col, flip(sort[0].1))] + sort.drop_first()
    } else {
        seq![(col, ColumnSort::Ascending)] + drop_column(sort, col)
    }
}

impl<R> TableState<R> {
    /// A table before its first fetch: no sort, nothing displayed, total
    /// unknown.
    pub fn new() -> (s: TableState<R>)
        ensures
            s.sort@ == Seq::<(usize, ColumnSort)>::empty(),
            s.displayed == (RowRange { start: 0, end: 0 }),
            s.generation == 0,
            s.rows@ == Seq::<R>::empty(),
            s.effective == (RowRange { start: 0, end: 0 }),
            s.row_count is None,
            s.error is None,
    {
        TableState {
            sort: Vec::new(),
            displayed: RowRange { start: 0, end: 0 },
            generation: 0,
            rows: Vec::new(),
            effective: RowRange { start: 0, end: 0 },
            row_count: None,
            error: None,
        }
    }

    /// Issue a request for a window: the returned generation tags it, and
    /// only a response carrying that tag may update this state.
    pub fn dispatch(&mut self, range: RowRange) -> (g: u64)
        requires
            old(self).generation < u64::MAX,
        ensures
            *final(self) == dispatch_spec(*old(self), range),
            g == final(self).generation,
    {
        self.generation = self.generation + 1;
        self.displayed = range;
        self.generation
    }

    /// Settle a rows response. A response whose generation is not the most
    /// recently dispatched one is discarded; a current failure keeps the
    /// previously rendered rows visible.
    pub fn on_rows_response(&mut self, g: u64, outcome: Result<(Vec<R>, RowRange), String>)
        ensures
            *final(self) == rows_response_spec(*old(self), g, outcome),
    {
        if g == self.generation {
            match outcome {
                Ok(p) => {
                    self.rows = p.0;
                    self.effective = p.1;
                    self.error = None;
                },
                Err(e) => {
                    self.error = Some(e);
                },
            }
        }
    }

    /// Settle a count response; the advisory total must not block row
    /// display, so it arrives independently of the rows.
    pub fn on_count_response(&mut self, g: u64, total: Option<usize>)
        ensures
            *final(self) == count_response_spec(*old(self), g, total),
    {
        if g == self.generation {
            self.row_count = total;
        }
    }

    /// Apply the sort-click policy for a column header.
    pub fn toggle_sort(&mut self, col: usize)
        ensures
            final(self).sort@ == toggle_sort_spec(old(self).sort@, col),
            final(self).displayed == old(self).displayed,
            final(self).generation == old(self).generation,
            final(self).rows == old(self).rows,
            final(self).effective == old(self).effective,
            final(self).row_count == old(self).row_count,
            final(self).error == old(self).error,
    {
        let ghost sv = self.sort@;
        if self.sort.len() > 0 && self.sort[0].0 == col {
            let dir = self.sort[0].1;
            let flipped = match dir {
                ColumnSort::Ascending => ColumnSort::Descending,
                ColumnSort::Descending => ColumnSort::Ascending,
            };
            self.sort.set(0, (col, flipped));
            proof {
                assert(self.sort@ =~= seq![(col, flip(sv[0].1))] + sv.drop_first());
            }
        } else {
            let mut ns: Vec<(usize, ColumnSort)> = Vec::new();
            ns.push((col, ColumnSort::Ascending));
            let mut i: usize = 0;
            while i < self.sort.len()
                invariant
                    i <= self.sort.len(),
                    sv == self.sort@,
                    ns@ == seq![(col, ColumnSort::Ascending)] + drop_column(
                        sv.take(i as int),
                        col,
                    ),
                decreases self.sort.len() - i,
            {
                proof {
                    assert(sv.take(i + 1).drop_last() =~= sv.take(i as int));
                    assert(sv.take(i + 1).last() == sv[i as int]);
                }
                let ghost old_ns = ns@;
                let e = self.sort[i];
                if e.0 != col {
                    ns.push(e);
                    proof {
                        assert(ns@ =~= old_ns.push(sv[i as int]));
                        assert(seq![(col, ColumnSort::Ascending)] + drop_column(
                            sv.take(i + 1),
                            col,
                        ) =~= old_ns.push(sv[i as int]));
                    }
                } else {
                    proof {
                        assert(seq![(col, ColumnSort::Ascending)] + drop_column(
                            sv.take(i + 1),
                            col,
                        ) =~= old_ns);
                    }
                }
                i = i + 1;
            }
            proof {
                assert(sv.take(self.sort.len() as int) =~= sv);
            }
            self.sort = ns;
        }
    }
}

/// Law: a late response from a superseded request lineage is discarded.
/// After a newer request has been dispatched, a rows response tagged with
/// the earlier generation leaves the state exactly as it was.
pub proof fn lemma_stale_response_discarded<R>(
    s: TableState<R>,
    r1: RowRange,
    r2: RowRange,
    outcome: Result<(Vec<R>, RowRange), String>,
)
    requires
        s.generation + 2 <= u64::MAX,
    ensures
        ({
            let s1 = dispatch_spec(s, r1);
            let s2 = dispatch_spec(s1, r2);
            rows_response_spec(s2, s1.generation, outcome) == s2
        }),
{
}

/// After a row's single-field mutation returns, force exactly one reload
/// regardless of the outcome, and hand the failure back for best-effort
/// reporting — there is no modal to show it in.
pub fn settle_inline_edit(outcome: Result<(), String>, reload: &mut ReloadController) -> (log:
    Option<String>)
    requires
        old(reload).token < u64::MAX,
    ensures
        final(reload).token == old(reload).token + 1,
        outcome is Ok ==> log is None,
        outcome matches Err(e) ==> log == Some(e),
{
    reload.reload();
    match outcome {
        Ok(_) => None,
        Err(e) => Some(e),
    }
}

} // verus!
