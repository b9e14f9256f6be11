//! The Alias resource: its record type, query planning for the list and
//! count endpoints, and the table data provider. Aliases are exposed
//! read-only through the table and their endpoints carry no privilege
//! gate.

use crate::provider::{
    effective_range_spec, make_page, page_rows_spec, row_count_from_result,
};
use crate::query::{
    compile, compile_count, copy_sort, count_statement_spec, filter_clause_spec,
    order_clause_spec, search_bindings_spec, text_params, Column, ColumnSort, ColumnV,
    CompiledQuery, QuerySpec, RowRange, Schema, SchemaV, Statement,
};
use crate::utils::{trim, trim_of};
use vstd::prelude::*;

verus! {

/// An address alias row, an immutable snapshot returned by a fetch.
///
/// The creation instant is carried as seconds since the Unix epoch; turning
/// it into calendar text is the renderer's business, not the library's.
#[derive(Clone, Debug, PartialEq, Eq)]
pub struct Alias {
    pub address: String,
    pub target: String,
    pub comment: String,
    pub n_recv: i64,
    pub n_sent: i64,
    pub created_at: i64,
    pub active: bool,
}

/// One page request against the aliases table.
pub type AliasQuery = QuerySpec;

/// The aliases table whitelist: its base statements and columns. Address
/// and comment are searchable; every column is sortable.
pub open spec fn aliases_schema_v() -> SchemaV {
    SchemaV {
        base_select: "SELECT * FROM aliases"@,
        base_count: "SELECT COUNT(*) FROM aliases"@,
        columns: seq![
            ColumnV { name: "address"@, sortable: true, searchable: true },
            ColumnV { name: "target"@, sortable: true, searchable: false },
            ColumnV { name: "comment"@, sortable: true, searchable: true },
            ColumnV { name: "n_recv"@, sortable: true, searchable: false },
            ColumnV { name: "n_sent"@, sortable: true, searchable: false },
            ColumnV { name: "created_at"@, sortable: true, searchable: false },
            ColumnV { name: "active"@, sortable: true, searchable: false },
        ],
    }
}

/// Build one whitelist column.
fn column(name: &str, sortable: bool, searchable: bool) -> (c: Column)
    ensures
        c@ == (ColumnV { name: name@, sortable, searchable }),
{
    Column { name: name.to_owned(), sortable, searchable }
}

/// Build the aliases table whitelist.
pub fn aliases_schema() -> (s: Schema)
    ensures
        s@ == aliases_schema_v(),
{
    let mut columns: Vec<Column> = Vec::new();
    columns.push(column("address", true, true));
    columns.push(column("target", true, false));
    columns.push(column("comment", true, true));
    columns.push(column("n_recv", true, false));
    columns.push(column("n_sent", true, false));
    columns.push(column("created_at", true, false));
    columns.push(column("active", true, false));
    let s = Schema {
        base_select: "SELECT * FROM aliases".to_owned(),
        base_count: "SELECT COUNT(*) FROM aliases".to_owned(),
        columns,
    };
    proof {
        assert(s@.columns =~= aliases_schema_v().columns);
    }
    s
}

/// Plan the page query of the aliases list: the compiled clauses and
/// bindings of one page request.
pub fn list_aliases(query: &AliasQuery) -> (c: CompiledQuery)
    requires
        query.wf(),
        query.range.end as int <= i64::MAX as int,
    ensures
        c.filter_clause@ == filter_clause_spec(
            aliases_schema_v().columns,
            query.search@.len() > 0,
        ),
        c.order_clause@ == order_clause_spec(aliases_schema_v().columns, query.sort@),
        c.limit as int == query.range.spec_len(),
        c.offset as int == query.range.start as int,
        c.bindings.deep_view() == search_bindings_spec(
            aliases_schema_v().columns,
            query.search@,
        ),
{
    let schema = aliases_schema();
    compile(&schema, query)
}

/// Plan the count query of the aliases list: the same filter as the page
/// query, ignoring sort and range.
pub fn alias_count(search: &String) -> (st: Statement)
    ensures
        st.text@ == count_statement_spec(aliases_schema_v(), search@.len() > 0),
        st.params.deep_view() == text_params(
            search_bindings_spec(aliases_schema_v().columns, search@),
        ),
{
    let schema = aliases_schema();
    compile_count(&schema, search)
}

/// The aliases list's data provider: it owns the current sort and search
/// and nothing else, so each row fetch is independent. Changing the search
/// bumps an observable version — the seam a reactive consumer subscribes
/// to.
pub struct AliasTableDataProvider {
    pub sort: Vec<(usize, ColumnSort)>,
    pub search: String,
    pub version: u64,
}

impl Default for AliasTableDataProvider {
    /// A fresh provider: natural order, no filter.
    fn default() -> (s: Self)
        ensures
            s.sort@.len() == 0,
            s.search@.len() == 0,
            s.version == 0,
    {
        AliasTableDataProvider { sort: Vec::new(), search: String::new(), version: 0 }
    }
}

impl AliasTableDataProvider {
    /// The Query Spec a row fetch for this window issues: the provider's
    /// current sort and trimmed search, and the caller's range — supplied
    /// per request, never stored.
    pub fn get_rows_query(&self, range: RowRange) -> (q: AliasQuery)
        ensures
            q.sort@ == self.sort@,
            q.range == range,
            q.search@ == trim_of(self.search@),
    {
        AliasQuery {
            sort: copy_sort(&self.sort),
            range,
            search: trim(self.search.as_str()).to_owned(),
        }
    }

    /// Settle a row fetch: a store response becomes a Page Result clipped
    /// to the requested window; a failure is handed through as the
    /// per-call error, leaving previous rows to the caller.
    pub fn get_rows_result(range: RowRange, fetched: Result<Vec<Alias>, String>) -> (r: Result<
        (Vec<Alias>, RowRange),
        String,
    >)
        requires
            range.wf(),
        ensures
            fetched matches Ok(rows) ==> r matches Ok(p) && p.0@ == page_rows_spec(range, rows@)
                && p.1 == effective_range_spec(range, rows@),
            fetched matches Err(e) ==> r == Err::<(Vec<Alias>, RowRange), String>(e),
    {
        match fetched {
            Ok(rows) => Ok(make_page(range, rows)),
            Err(e) => Err(e),
        }
    }

    /// Degrade the count round-trip's outcome to an advisory total.
    pub fn row_count(fetched: Result<usize, String>) -> (r: Option<usize>)
        ensures
            fetched matches Ok(n) ==> r == Some(n),
            fetched is Err ==> r is None,
    {
        row_count_from_result(fetched)
    }

    /// Replace the current sort; refetching is the consumer's business.
    pub fn set_sorting(&mut self, sorting: &Vec<(usize, ColumnSort)>)
        ensures
            final(self).sort@ == sorting@,
            final(self).search == old(self).search,
            final(self).version == old(self).version,
    {
        self.sort = copy_sort(sorting);
    }

    /// Replace the search text and notify observers of the filter change.
    pub fn set_search(&mut self, search: String)
        requires
            old(self).version < u64::MAX,
        ensures
            final(self).search == search,
            final(self).sort == old(self).sort,
            final(self).version == old(self).version + 1,
    {
        self.search = search;
        self.version = self.version + 1;
    }

    /// Observe the filter state: consumers re-issue their query when the
    /// version they saw goes stale.
    pub fn track(&self) -> (v: u64)
        ensures
            v == self.version,
    {
        self.version
    }
}

} // verus!
