//! Query Spec and Query Compiler.
//!
//! A `QuerySpec` is an immutable description of one page request: sort order,
//! row range and free-text filter. The compiler turns it into the pieces of a
//! parameterized statement — filter clause, order clause, limit and offset —
//! against a whitelist of column names. Untrusted text is never interpolated
//! into statement text: the search term travels only as a bound parameter,
//! and sort entries select whitelisted column names by index, never by text.

use vstd::prelude::*;
use vstd::string::StringExecFns;

verus! {

/// Direction of one sort entry. A column that is not sorted simply has no
/// entry in the sort list.
#[derive(Clone, Copy, Debug, PartialEq, Eq, Structural)]
pub enum ColumnSort {
    Ascending,
    Descending,
}

/// A half-open range `[start, end)` of zero-based row positions.
#[derive(Clone, Copy, Debug, PartialEq, Eq, Structural)]
pub struct RowRange {
    pub start: usize,
    pub end: usize,
}

impl RowRange {
    /// The range invariant: `start <= end`.
    pub open spec fn wf(self) -> bool {
        self.start <= self.end
    }

    /// Number of rows the range asks for.
    pub open spec fn spec_len(self) -> int {
        self.end - self.start
    }

    pub fn new(start: usize, end: usize) -> (r: RowRange)
        requires
            start <= end,
        ensures
            r.start == start,
            r.end == end,
            r.wf(),
    {
        RowRange { start, end }
    }
}

/// One column of a record type: its statement-text name and whether sort
/// entries may select it and the free-text filter searches it.
pub struct Column {
    pub name: String,
    pub sortable: bool,
    pub searchable: bool,
}

/// Mathematical image of a `Column`.
pub ghost struct ColumnV {
    pub name: Seq<char>,
    pub sortable: bool,
    pub searchable: bool,
}

impl View for Column {
    type V = ColumnV;

    open spec fn view(&self) -> ColumnV {
        ColumnV { name: self.name@, sortable: self.sortable, searchable: self.searchable }
    }
}

impl DeepView for Column {
    type V = ColumnV;

    open spec fn deep_view(&self) -> ColumnV {
        self.view()
    }
}

/// The whitelist a record type compiles against: base statement texts and
/// the ordered column set.
pub struct Schema {
    pub base_select: String,
    pub base_count: String,
    pub columns: Vec<Column>,
}

/// Mathematical image of a `Schema`.
pub ghost struct SchemaV {
    pub base_select: Seq<char>,
    pub base_count: Seq<char>,
    pub columns: Seq<ColumnV>,
}

impl View for Schema {
    type V = SchemaV;

    open spec fn view(&self) -> SchemaV {
        SchemaV {
            base_select: self.base_select@,
            base_count: self.base_count@,
            columns: self.columns.deep_view(),
        }
    }
}

/// One page request: sort priority list, row range, free-text filter.
pub struct QuerySpec {
    pub sort: Vec<(usize, ColumnSort)>,
    pub range: RowRange,
    pub search: String,
}

impl QuerySpec {
    pub open spec fn wf(self) -> bool {
        self.range.wf()
    }
}

/// A value bound to a statement placeholder.
#[derive(Clone, Debug, PartialEq, Eq)]
pub enum Param {
    Text(String),
    Int(i64),
    Bool(bool),
}

/// Mathematical image of a `Param`.
pub ghost enum ParamV {
    Text(Seq<char>),
    Int(i64),
    Bool(bool),
}

impl View for Param {
    type V = ParamV;

    open spec fn view(&self) -> ParamV {
        match self {
            Param::Text(s) => ParamV::Text(s@),
            Param::Int(n) => ParamV::Int(*n),
            Param::Bool(b) => ParamV::Bool(*b),
        }
    }
}

impl DeepView for Param {
    type V = ParamV;

    open spec fn deep_view(&self) -> ParamV {
        self.view()
    }
}

/// A complete parameterized statement: text with `?` placeholders and the
/// values bound to them, in placeholder order.
#[derive(Debug, PartialEq, Eq)]
pub struct Statement {
    pub text: String,
    pub params: Vec<Param>,
}

/// What `compile` hands back for a page request: the filter and order
/// fragments of the statement text, the page bounds, and the values bound
/// to the filter's placeholders. No fragment depends on the search text
/// itself, only on whether a search is present.
#[derive(Debug, PartialEq, Eq)]
pub struct CompiledQuery {
    pub filter_clause: String,
    pub order_clause: String,
    pub limit: i64,
    pub offset: i64,
    pub bindings: Vec<String>,
}

/// The case-insensitive substring predicate emitted for one searchable
/// column; the search term itself is a bound parameter.
pub open spec fn like_term(name: Seq<char>) -> Seq<char> {
    name + " LIKE concat('%', ?, '%')"@
}

/// The `LIKE` predicates of exactly the searchable columns, in column order.
pub open spec fn searchable_like_terms(cols: Seq<ColumnV>) -> Seq<Seq<char>>
    decreases cols.len(),
{
    if cols.len() == 0 {
        Seq::empty()
    } else {
        searchable_like_terms(cols.drop_last()) + (if cols.last().searchable {
            seq![like_term(cols.last().name)]
        } else {
            Seq::empty()
        })
    }
}

/// Parts joined by a separator, in order.
pub open spec fn join(parts: Seq<Seq<char>>, sep: Seq<char>) -> Seq<char>
    decreases parts.len(),
{
    if parts.len() == 0 {
        Seq::empty()
    } else if parts.len() == 1 {
        parts[0]
    } else {
        join(parts.drop_last(), sep) + sep + parts.last()
    }
}

/// The filter clause: a `WHERE` with an `OR`-chain over the searchable
/// columns when a search is present and at least one column is searchable,
/// nothing otherwise. It is a function of the schema and of search
/// *presence* alone — never of the search text.
pub open spec fn filter_clause_spec(cols: Seq<ColumnV>, has_search: bool) -> Seq<char> {
    let terms = searchable_like_terms(cols);
    if has_search && terms.len() > 0 {
        " WHERE "@ + join(terms, " OR "@)
    } else {
        Seq::empty()
    }
}

/// Statement text of one sort direction.
pub open spec fn dir_suffix(dir: ColumnSort) -> Seq<char> {
    match dir {
        ColumnSort::Ascending => " ASC"@,
        ColumnSort::Descending => " DESC"@,
    }
}

/// The `ORDER BY` terms of the sort entries, in priority order. An entry is
/// kept only when its index selects a sortable column of the whitelist;
/// unknown indices are ignored, so user input can never name a column.
pub open spec fn order_terms(cols: Seq<ColumnV>, sort: Seq<(usize, ColumnSort)>) -> Seq<Seq<char>>
    decreases sort.len(),
{
    if sort.len() == 0 {
        Seq::empty()
    } else {
        order_terms(cols, sort.drop_last()) + ({
            let e = sort.last();
            if e.0 < cols.len() && cols[e.0 as int].sortable {
                seq![cols[e.0 as int].name + dir_suffix(e.1)]
            } else {
                Seq::empty()
            }
        })
    }
}

/// The order clause, empty when no sort entry survives the whitelist.
pub open spec fn order_clause_spec(cols: Seq<ColumnV>, sort: Seq<(usize, ColumnSort)>) -> Seq<
    char,
> {
    let terms = order_terms(cols, sort);
    if terms.len() > 0 {
        " ORDER BY "@ + join(terms, ", "@)
    } else {
        Seq::empty()
    }
}

/// Full text of a page statement. Limit and offset are placeholders, bound
/// separately.
pub open spec fn statement_spec(
    sv: SchemaV,
    sort: Seq<(usize, ColumnSort)>,
    has_search: bool,
) -> Seq<char> {
    sv.base_select + filter_clause_spec(sv.columns, has_search) + order_clause_spec(
        sv.columns,
        sort,
    ) + " LIMIT ? OFFSET ?"@
}

/// Full text of a count statement: same filter, no order, no page bounds.
pub open spec fn count_statement_spec(sv: SchemaV, has_search: bool) -> Seq<char> {
    sv.base_count + filter_clause_spec(sv.columns, has_search)
}

/// The values bound to the filter's placeholders: the search term once per
/// searchable column when a search is present.
pub open spec fn search_bindings_spec(cols: Seq<ColumnV>, search: Seq<char>) -> Seq<Seq<char>> {
    if search.len() > 0 {
        Seq::new(searchable_like_terms(cols).len(), |i: int| search)
    } else {
        Seq::empty()
    }
}

/// Text bindings lifted to parameter values.
pub open spec fn text_params(binds: Seq<Seq<char>>) -> Seq<ParamV> {
    Seq::new(binds.len(), |i: int| ParamV::Text(binds[i]))
}

/// Build the `LIKE` predicates of the searchable columns.
fn collect_like_terms(columns: &Vec<Column>) -> (ts: Vec<String>)
    ensures
        ts.deep_view() == searchable_like_terms(columns.deep_view()),
{
    let ghost cv = columns.deep_view();
    let mut ts: Vec<String> = Vec::new();
    let mut i: usize = 0;
    while i < columns.len()
        invariant
            i <= columns.len(),
            cv == columns.deep_view(),
            cv.len() == columns.len(),
            ts.deep_view() == searchable_like_terms(cv.take(i as int)),
        decreases columns.len() - i,
    {
        proof {
            assert(cv.take(i + 1).drop_last() =~= cv.take(i as int));
            assert(cv.take(i + 1).last() == cv[i as int]);
        }
        let ghost old_ts = ts.deep_view();
        if columns[i].searchable {
            let mut t = columns[i].name.clone();
            t.append(" LIKE concat('%', ?, '%')");
            ts.push(t);
            proof {
                assert(ts.deep_view() =~= old_ts.push(like_term(cv[i as int].name)));
                assert(searchable_like_terms(cv.take(i + 1)) =~= old_ts.push(
                    like_term(cv[i as int].name),
                ));
            }
        } else {
            proof {
                assert(searchable_like_terms(cv.take(i + 1)) =~= old_ts);
            }
        }
        i = i + 1;
    }
    proof {
        assert(cv.take(columns.len() as int) =~= cv);
    }
    ts
}

/// Build the `ORDER BY` terms of the sort entries that the whitelist admits.
fn collect_order_terms(columns: &Vec<Column>, sort: &Vec<(usize, ColumnSort)>) -> (ts: Vec<String>)
    ensures
        ts.deep_view() == order_terms(columns.deep_view(), sort@),
{
    let ghost cv = columns.deep_view();
    let ghost sv = sort@;
    let mut ts: Vec<String> = Vec::new();
    let mut i: usize = 0;
    while i < sort.len()
        invariant
            i <= sort.len(),
            cv == columns.deep_view(),
            sv == sort@,
            cv.len() == columns.len(),
            ts.deep_view() == order_terms(cv, sv.take(i as int)),
        decreases sort.len() - i,
    {
        proof {
            assert(sv.take(i + 1).drop_last() =~= sv.take(i as int));
            assert(sv.take(i + 1).last() == sv[i as int]);
        }
        let ghost old_ts = ts.deep_view();
        let e = sort[i];
        if e.0 < columns.len() && columns[e.0].sortable {
            let mut t = columns[e.0].name.clone();
            match e.1 {
                ColumnSort::Ascending => t.append(" ASC"),
                ColumnSort::Descending => t.append(" DESC"),
            }
            ts.push(t);
            proof {
                assert(ts.deep_view() =~= old_ts.push(
                    cv[e.0 as int].name + dir_suffix(e.1),
                ));
                assert(order_terms(cv, sv.take(i + 1)) =~= old_ts.push(
                    cv[e.0 as int].name + dir_suffix(e.1),
                ));
            }
        } else {
            proof {
                assert(order_terms(cv, sv.take(i + 1)) =~= old_ts);
            }
        }
        i = i + 1;
    }
    proof {
        assert(sv.take(sort.len() as int) =~= sv);
    }
    ts
}

/// Join parts with a separator.
fn join_with(parts: &Vec<String>, sep: &str) -> (r: String)
    ensures
        r@ == join(parts.deep_view(), sep@),
{
    let ghost pv = parts.deep_view();
    let mut r = String::new();
    let mut i: usize = 0;
    while i < parts.len()
        invariant
            i <= parts.len(),
            pv == parts.deep_view(),
            pv.len() == parts.len(),
            r@ == join(pv.take(i as int), sep@),
        decreases parts.len() - i,
    {
        proof {
            assert(pv.take(i + 1).drop_last() =~= pv.take(i as int));
            assert(pv.take(i + 1).last() == pv[i as int]);
        }
        if i > 0 {
            r.append(sep);
        }
        r.append(parts[i].as_str());
        proof {
            if i == 0 {
                assert(join(pv.take(1), sep@) == pv[0]);
                assert(Seq::<char>::empty() + pv[0] =~= pv[0]);
            }
        }
        i = i + 1;
    }
    proof {
        assert(pv.take(parts.len() as int) =~= pv);
    }
    r
}

/// Copy a sort priority list.
pub fn copy_sort(v: &Vec<(usize, ColumnSort)>) -> (r: Vec<(usize, ColumnSort)>)
    ensures
        r@ == v@,
{
    let mut r: Vec<(usize, ColumnSort)> = Vec::new();
    let mut i: usize = 0;
    while i < v.len()
        invariant
            i <= v.len(),
            r@ == v@.take(i as int),
        decreases v.len() - i,
    {
        r.push(v[i]);
        proof {
            assert(v@.take(i + 1) =~= v@.take(i as int).push(v@[i as int]));
        }
        i = i + 1;
    }
    proof {
        assert(v@.take(v.len() as int) =~= v@);
    }
    r
}

/// Compile one page request against a whitelist.
///
/// The clause texts depend on the schema, the sort entries and search
/// *presence* alone; the search term appears only among the bindings, and
/// limit and offset are bound values, never interpolated. Compilation never
/// fails on search text; an inverted range is the caller's to reject.
pub fn compile(schema: &Schema, query: &QuerySpec) -> (c: CompiledQuery)
    requires
        query.wf(),
        query.range.end as int <= i64::MAX as int,
    ensures
        c.filter_clause@ == filter_clause_spec(schema@.columns, query.search@.len() > 0),
        c.order_clause@ == order_clause_spec(schema@.columns, query.sort@),
        c.limit as int == query.range.spec_len(),
        c.offset as int == query.range.start as int,
        c.bindings.deep_view() == search_bindings_spec(schema@.columns, query.search@),
{
    let has_search = !query.search.as_str().is_empty();
    let terms = collect_like_terms(&schema.columns);
    let mut filter_clause = String::new();
    let mut bindings: Vec<String> = Vec::new();
    if has_search && terms.len() > 0 {
        filter_clause.append(" WHERE ");
        let joined = join_with(&terms, " OR ");
        filter_clause.append(joined.as_str());
        proof {
            assert(Seq::<char>::empty() + " WHERE "@ =~= " WHERE "@);
        }
        let mut k: usize = 0;
        while k < terms.len()
            invariant
                k <= terms.len(),
                bindings.deep_view() == Seq::new(k as nat, |i: int| query.search@),
            decreases terms.len() - k,
        {
            let ghost old_b = bindings.deep_view();
            bindings.push(query.search.clone());
            proof {
                assert(bindings.deep_view() =~= old_b.push(query.search@));
                assert(Seq::new((k + 1) as nat, |i: int| query.search@) =~= old_b.push(
                    query.search@,
                ));
            }
            k = k + 1;
        }
        proof {
            assert(bindings.deep_view() =~= search_bindings_spec(
                schema@.columns,
                query.search@,
            ));
        }
    } else {
        proof {
            if has_search {
                assert(Seq::new(0nat, |i: int| query.search@) =~= Seq::<Seq<char>>::empty());
            }
        }
    }
    let oterms = collect_order_terms(&schema.columns, &query.sort);
    let mut order_clause = String::new();
    if oterms.len() > 0 {
        order_clause.append(" ORDER BY ");
        let joined = join_with(&oterms, ", ");
        order_clause.append(joined.as_str());
        proof {
            assert(Seq::<char>::empty() + " ORDER BY "@ =~= " ORDER BY "@);
        }
    }
    let limit = (query.range.end - query.range.start) as i64;
    let offset = query.range.start as i64;
    CompiledQuery { filter_clause, order_clause, limit, offset, bindings }
}

impl CompiledQuery {
    /// Assemble the full statement text over a base statement.
    pub fn statement(&self, base_select: &str) -> (s: String)
        ensures
            s@ == base_select@ + self.filter_clause@ + self.order_clause@
                + " LIMIT ? OFFSET ?"@,
    {
        let mut s = base_select.to_owned();
        s.append(self.filter_clause.as_str());
        s.append(self.order_clause.as_str());
        s.append(" LIMIT ? OFFSET ?");
        s
    }

    /// All bound values in placeholder order: the filter bindings, then the
    /// limit, then the offset.
    pub fn params(&self) -> (ps: Vec<Param>)
        ensures
            ps.deep_view() == text_params(self.bindings.deep_view()).push(
                ParamV::Int(self.limit),
            ).push(ParamV::Int(self.offset)),
    {
        let ghost bv = self.bindings.deep_view();
        let mut ps: Vec<Param> = Vec::new();
        let mut i: usize = 0;
        while i < self.bindings.len()
            invariant
                i <= self.bindings.len(),
                bv == self.bindings.deep_view(),
                bv.len() == self.bindings.len(),
                ps.deep_view() == text_params(bv.take(i as int)),
            decreases self.bindings.len() - i,
        {
            let ghost old_ps = ps.deep_view();
            ps.push(Param::Text(self.bindings[i].clone()));
            proof {
                assert(ps.deep_view() =~= old_ps.push(ParamV::Text(bv[i as int])));
                assert(text_params(bv.take(i + 1)) =~= old_ps.push(
                    ParamV::Text(bv[i as int]),
                ));
            }
            i = i + 1;
        }
        proof {
            assert(bv.take(self.bindings.len() as int) =~= bv);
        }
        let ghost before = ps.deep_view();
        ps.push(Param::Int(self.limit));
        proof {
            assert(ps.deep_view() =~= before.push(ParamV::Int(self.limit)));
        }
        let ghost before2 = ps.deep_view();
        ps.push(Param::Int(self.offset));
        proof {
            assert(ps.deep_view() =~= before2.push(ParamV::Int(self.offset)));
        }
        ps
    }
}

/// Compile the count statement for a filter: same searchable-column
/// predicate as the page statement, no order, no page bounds.
pub fn compile_count(schema: &Schema, search: &String) -> (st: Statement)
    ensures
        st.text@ == count_statement_spec(schema@, search@.len() > 0),
        st.params.deep_view() == text_params(
            search_bindings_spec(schema@.columns, search@),
        ),
{
    let has_search = !search.as_str().is_empty();
    let terms = collect_like_terms(&schema.columns);
    let mut text = schema.base_count.clone();
    let mut params: Vec<Param> = Vec::new();
    if has_search && terms.len() > 0 {
        text.append(" WHERE ");
        let joined = join_with(&terms, " OR ");
        text.append(joined.as_str());
        let mut k: usize = 0;
        while k < terms.len()
            invariant
                k <= terms.len(),
                params.deep_view() == Seq::new(k as nat, |i: int| ParamV::Text(search@)),
            decreases terms.len() - k,
        {
            let ghost old_p = params.deep_view();
            params.push(Param::Text(search.clone()));
            proof {
                assert(params.deep_view() =~= old_p.push(ParamV::Text(search@)));
                assert(Seq::new((k + 1) as nat, |i: int| ParamV::Text(search@)) =~= old_p.push(
                    ParamV::Text(search@),
                ));
            }
            k = k + 1;
        }
        proof {
            assert(params.deep_view() =~= text_params(
                search_bindings_spec(schema@.columns, search@),
            ));
        }
    } else {
        proof {
            assert(params.deep_view() =~= text_params(
                search_bindings_spec(schema@.columns, search@),
            ));
        }
    }
    Statement { text, params }
}

/// Law: statement text never embeds the search term. For any two searches
/// that are both empty or both non-empty, the compiled page and count
/// statement texts are identical; only the bound values differ.
pub proof fn lemma_statement_ignores_search_text(
    sv: SchemaV,
    sort: Seq<(usize, ColumnSort)>,
    search1: Seq<char>,
    search2: Seq<char>,
)
    requires
        (search1.len() > 0) <==> (search2.len() > 0),
    ensures
        statement_spec(sv, sort, search1.len() > 0) == statement_spec(
            sv,
            sort,
            search2.len() > 0,
        ),
        count_statement_spec(sv, search1.len() > 0) == count_statement_spec(
            sv,
            search2.len() > 0,
        ),
        search_bindings_spec(sv.columns, search1).len() == search_bindings_spec(
            sv.columns,
            search2,
        ).len(),
{
}

} // verus!
