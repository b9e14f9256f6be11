use idmail::query::{ColumnSort, Param, QuerySpec, RowRange};
use idmail::users::users_schema;

fn spec(
    sort: Vec<(usize, ColumnSort)>,
    start: usize,
    end: usize,
    search: &str,
) -> QuerySpec {
    QuerySpec { sort, range: RowRange::new(start, end), search: search.to_string() }
}

#[test]
fn users_statement_with_search_and_sort() {
    let schema = users_schema();
    let q = spec(
        vec![(3, ColumnSort::Descending), (0, ColumnSort::Ascending)],
        0,
        50,
        "bob",
    );
    let c = idmail::query::compile(&schema, &q);
    assert_eq!(c.filter_clause, " WHERE username LIKE concat('%', ?, '%')");
    assert_eq!(c.order_clause, " ORDER BY created_at DESC, username ASC");
    assert_eq!(
        c.statement(&schema.base_select),
        "SELECT * FROM users WHERE username LIKE concat('%', ?, '%') \
         ORDER BY created_at DESC, username ASC LIMIT ? OFFSET ?"
    );
    assert_eq!(c.limit, 50);
    assert_eq!(c.offset, 0);
    assert_eq!(c.bindings, vec!["bob".to_string()]);
}

#[test]
fn empty_search_has_no_filter() {
    let schema = users_schema();
    let q = spec(vec![], 10, 30, "");
    let c = idmail::query::compile(&schema, &q);
    assert_eq!(c.filter_clause, "");
    assert_eq!(c.order_clause, "");
    assert_eq!(
        c.statement(&schema.base_select),
        "SELECT * FROM users LIMIT ? OFFSET ?"
    );
    assert_eq!(c.limit, 20);
    assert_eq!(c.offset, 10);
    assert!(c.bindings.is_empty());
}

#[test]
fn statement_text_does_not_depend_on_search_content() {
    let schema = users_schema();
    let sort = vec![(0, ColumnSort::Ascending)];
    let a = idmail::query::compile(&schema, &spec(sort.clone(), 0, 10, "alice"));
    let b = idmail::query::compile(
        &schema,
        &spec(sort.clone(), 0, 10, "'; DROP TABLE users; --"),
    );
    assert_eq!(a.filter_clause, b.filter_clause);
    assert_eq!(a.order_clause, b.order_clause);
    assert_eq!(
        a.statement(&schema.base_select),
        b.statement(&schema.base_select)
    );
    assert_eq!(b.bindings, vec!["'; DROP TABLE users; --".to_string()]);
}

#[test]
fn unknown_sort_indices_are_ignored() {
    let schema = users_schema();
    let q = spec(
        vec![(9, ColumnSort::Ascending), (100, ColumnSort::Descending)],
        0,
        10,
        "",
    );
    let c = idmail::query::compile(&schema, &q);
    assert_eq!(c.order_clause, "");
    let mixed = spec(
        vec![(9, ColumnSort::Ascending), (1, ColumnSort::Descending)],
        0,
        10,
        "",
    );
    let c2 = idmail::query::compile(&schema, &mixed);
    assert_eq!(c2.order_clause, " ORDER BY admin DESC");
}

#[test]
fn params_carry_bindings_then_limit_then_offset() {
    let schema = users_schema();
    let q = spec(vec![], 5, 25, "eve");
    let c = idmail::query::compile(&schema, &q);
    let ps = c.params();
    assert_eq!(ps.len(), 3);
    assert!(matches!(&ps[0], Param::Text(t) if t == "eve"));
    assert!(matches!(&ps[1], Param::Int(20)));
    assert!(matches!(&ps[2], Param::Int(5)));
}

#[test]
fn users_count_statement() {
    let st = idmail::query::compile_count(&users_schema(), &"bob".to_string());
    assert_eq!(
        st.text,
        "SELECT COUNT(*) FROM users WHERE username LIKE concat('%', ?, '%')"
    );
    assert_eq!(st.params.len(), 1);
    assert!(matches!(&st.params[0], Param::Text(t) if t == "bob"));

    let empty = idmail::query::compile_count(&users_schema(), &"".to_string());
    assert_eq!(empty.text, "SELECT COUNT(*) FROM users");
    assert!(empty.params.is_empty());
}
