//! The User resource: its record type, password policy, query planning for
//! the list/count endpoints, the statements of its mutation endpoints, the
//! modal draft validation and the table data provider.
//!
//! Every User endpoint gates on an elevated principal, passed in
//! explicitly; the store round-trip itself happens outside the library,
//! which hands it a finished parameterized statement.

use crate::auth::{
    auth_admin, auth_any_user, bcrypt_hash, bcrypt_matches, bcrypt_parses, bcrypt_verify,
};
use crate::provider::{
    effective_range_spec, make_page, page_rows_spec, row_count_from_result,
};
use crate::query::{
    compile, compile_count, copy_sort, count_statement_spec, filter_clause_spec,
    order_clause_spec, search_bindings_spec, text_params, Column, ColumnSort, ColumnV,
    CompiledQuery, Param, ParamV, QuerySpec, RowRange, Schema, SchemaV, Statement,
};
use crate::utils::{trim, trim_of, ServerError};
use vstd::prelude::*;
use vstd::utf8::encode_utf8;

verus! {

/// A user account row, an immutable snapshot returned by a fetch.
///
/// The creation instant is carried as seconds since the Unix epoch; turning
/// it into calendar text is the renderer's business, not the library's.
#[derive(Clone, Debug, PartialEq, Eq)]
pub struct User {
    pub username: String,
    pub password_hash: String,
    pub admin: bool,
    pub active: bool,
    pub created_at: i64,
}

/// The accepted password length bounds, in bytes of the encoded text.
pub open spec fn valid_pw_text(password: Seq<char>) -> bool {
    12 <= encode_utf8(password).len() <= 1024
}

/// The password policy over a text slice.
pub open spec fn valid_pw(password: &str) -> bool {
    valid_pw_text(password@)
}

/// Whether a submitted password is acceptable to the password policy.
pub fn is_valid_pw(password: &str) -> (r: bool)
    ensures
        r == valid_pw_text(password@),
{
    let l: usize = password.as_bytes().len();
    12 <= l && l <= 1024
}

/// One page request against the users table.
pub type UserQuery = QuerySpec;

/// The users table whitelist: its base statements and columns. Username is
/// the only searchable column; every shown column is sortable.
pub open spec fn users_schema_v() -> SchemaV {
    SchemaV {
        base_select: "SELECT * FROM users"@,
        base_count: "SELECT COUNT(*) FROM users"@,
        columns: seq![
            ColumnV { name: "username"@, sortable: true, searchable: true },
            ColumnV { name: "admin"@, sortable: true, searchable: false },
            ColumnV { name: "active"@, sortable: true, searchable: false },
            ColumnV { name: "created_at"@, sortable: true, searchable: false },
        ],
    }
}

/// Build one whitelist column.
fn column(name: &str, sortable: bool, searchable: bool) -> (c: Column)
    ensures
        c@ == (ColumnV { name: name@, sortable, searchable }),
{
    Column { name: name.to_owned(), sortable, searchable }
}

/// The users view's default sort: newest accounts first — the
/// `created_at` column, descending, at priority 0.
pub fn users_default_sort() -> (s: Vec<(usize, ColumnSort)>)
    ensures
        s@ == seq![(3usize, ColumnSort::Descending)],
{
    let mut s: Vec<(usize, ColumnSort)> = Vec::new();
    s.push((3, ColumnSort::Descending));
    proof {
        assert(s@ =~= seq![(3usize, ColumnSort::Descending)]);
    }
    s
}

/// Build the users table whitelist.
pub fn users_schema() -> (s: Schema)
    ensures
        s@ == users_schema_v(),
{
    let mut columns: Vec<Column> = Vec::new();
    columns.push(column("username", true, true));
    columns.push(column("admin", true, false));
    columns.push(column("active", true, false));
    columns.push(column("created_at", true, false));
    let s = Schema {
        base_select: "SELECT * FROM users".to_owned(),
        base_count: "SELECT COUNT(*) FROM users".to_owned(),
        columns,
    };
    proof {
        assert(s@.columns =~= users_schema_v().columns);
    }
    s
}

/// Plan the page query of the users list for an elevated principal:
/// the compiled clauses and bindings of one page request.
pub fn list_users(principal: Option<crate::auth::User>, query: &UserQuery) -> (r: Result<
    CompiledQuery,
    ServerError,
>)
    requires
        query.wf(),
        query.range.end as int <= i64::MAX as int,
    ensures
        r is Ok <==> (principal matches Some(u) && u.admin),
        r matches Err(e) ==> e == ServerError::Unauthorized,
        r matches Ok(c) ==> c.filter_clause@ == filter_clause_spec(
            users_schema_v().columns,
            query.search@.len() > 0,
        ) && c.order_clause@ == order_clause_spec(users_schema_v().columns, query.sort@)
            && c.limit as int == query.range.spec_len() && c.offset as int == query.range.start
            as int && c.bindings.deep_view() == search_bindings_spec(
            users_schema_v().columns,
            query.search@,
        ),
{
    match auth_admin(principal) {
        Err(e) => Err(e),
        Ok(_) => {
            let schema = users_schema();
            Ok(compile(&schema, query))
        },
    }
}

/// Plan the count query of the users list for an elevated principal: the
/// same filter as the page query, ignoring sort and range.
pub fn user_count(principal: Option<crate::auth::User>, search: &String) -> (r: Result<
    Statement,
    ServerError,
>)
    ensures
        r is Ok <==> (principal matches Some(u) && u.admin),
        r matches Err(e) ==> e == ServerError::Unauthorized,
        r matches Ok(st) ==> st.text@ == count_statement_spec(
            users_schema_v(),
            search@.len() > 0,
        ) && st.params.deep_view() == text_params(
            search_bindings_spec(users_schema_v().columns, search@),
        ),
{
    match auth_admin(principal) {
        Err(e) => Err(e),
        Ok(_) => {
            let schema = users_schema();
            Ok(compile_count(&schema, search))
        },
    }
}

/// Plan the deletion of one user, keyed by the unique identity column.
pub fn delete_user(principal: Option<crate::auth::User>, username: String) -> (r: Result<
    Statement,
    ServerError,
>)
    ensures
        r is Ok <==> (principal matches Some(u) && u.admin),
        r matches Err(e) ==> e == ServerError::Unauthorized,
        r matches Ok(st) ==> st.text@ == "DELETE FROM users WHERE username = ?"@
            && st.params.deep_view() == seq![ParamV::Text(username@)],
{
    let ghost name = username@;
    match auth_admin(principal) {
        Err(e) => Err(e),
        Ok(_) => {
            let mut params: Vec<Param> = Vec::new();
            params.push(Param::Text(username));
            proof {
                assert(params.deep_view() =~= seq![ParamV::Text(name)]);
            }
            Ok(Statement { text: "DELETE FROM users WHERE username = ?".to_owned(), params })
        },
    }
}

/// Plan the single-field mutation behind the row-level admin/active
/// toggles: exactly one statement carrying the row's identity and the new
/// values.
pub fn update_user_admin_or_active(
    principal: Option<crate::auth::User>,
    username: String,
    admin: bool,
    active: bool,
) -> (r: Result<Statement, ServerError>)
    ensures
        r is Ok <==> (principal matches Some(u) && u.admin),
        r matches Err(e) ==> e == ServerError::Unauthorized,
        r matches Ok(st) ==> st.text@ == "UPDATE users SET admin = ?, active = ? WHERE username = ?"@
            && st.params.deep_view() == seq![
            ParamV::Bool(admin),
            ParamV::Bool(active),
            ParamV::Text(username@),
        ],
{
    let ghost name = username@;
    match auth_admin(principal) {
        Err(e) => Err(e),
        Ok(_) => {
            let mut params: Vec<Param> = Vec::new();
            params.push(Param::Bool(admin));
            params.push(Param::Bool(active));
            params.push(Param::Text(username));
            proof {
                assert(params.deep_view() =~= seq![
                    ParamV::Bool(admin),
                    ParamV::Bool(active),
                    ParamV::Text(name),
                ]);
            }
            Ok(
                Statement {
                    text: "UPDATE users SET admin = ?, active = ? WHERE username = ?".to_owned(),
                    params,
                },
            )
        },
    }
}

/// The message shown beside mismatching password fields.
pub open spec fn mismatch_message() -> Seq<char> {
    "Passwords don't match"@
}

/// The message shown beside a password outside the policy bounds.
pub open spec fn invalid_password_message() -> Seq<char> {
    "Password must be between 12 and 512 characters"@
}

/// The validation error list derived from the two draft checks, in display
/// order: the mismatch first, the policy violation second, nothing else.
pub open spec fn validation_errors_spec(mismatch: bool, invalid: bool) -> Seq<Seq<char>> {
    (if mismatch {
        seq![mismatch_message()]
    } else {
        Seq::empty()
    }) + (if invalid {
        seq![invalid_password_message()]
    } else {
        Seq::empty()
    })
}

/// The draft fields of the user create/edit modal. They mutate
/// independently of the source record, which is never written in place.
pub struct UserDraft {
    pub username: String,
    pub password: String,
    pub password_repeat: String,
    pub admin: bool,
    pub active: bool,
}

impl UserDraft {
    /// A create flow starts from defaults: empty fields, not an admin,
    /// active.
    pub fn for_new() -> (d: UserDraft)
        ensures
            d.username@.len() == 0,
            d.password@.len() == 0,
            d.password_repeat@.len() == 0,
            !d.admin,
            d.active,
    {
        UserDraft {
            username: String::new(),
            password: String::new(),
            password_repeat: String::new(),
            admin: false,
            active: true,
        }
    }

    /// An edit flow seeds the drafts from the target record; the password
    /// fields start empty, meaning "keep the current password".
    pub fn for_edit(user: &User) -> (d: UserDraft)
        ensures
            d.username@ == user.username@,
            d.password@.len() == 0,
            d.password_repeat@.len() == 0,
            d.admin == user.admin,
            d.active == user.active,
    {
        UserDraft {
            username: user.username.clone(),
            password: String::new(),
            password_repeat: String::new(),
            admin: user.admin,
            active: user.active,
        }
    }

    /// The two password fields disagree.
    pub open spec fn spec_mismatch(self) -> bool {
        self.password@ != self.password_repeat@
    }

    /// The draft password violates the policy. On an edit flow an empty
    /// password is fine — it means no change; on a create flow it is not.
    pub open spec fn spec_invalid_password(self, is_new: bool) -> bool {
        !(valid_pw_text(self.password@) || (!is_new && self.password@.len() == 0))
    }

    pub fn has_password_mismatch(&self) -> (r: bool)
        ensures
            r == self.spec_mismatch(),
    {
        !(self.password == self.password_repeat)
    }

    pub fn has_invalid_password(&self, is_new: bool) -> (r: bool)
        ensures
            r == self.spec_invalid_password(is_new),
    {
        let valid = is_valid_pw(self.password.as_str()) || (!is_new
            && self.password.as_str().is_empty());
        !valid
    }

    /// The validation error list, derived continuously from the drafts;
    /// while it is non-empty the Submit action is disabled.
    pub fn validation_errors(&self, is_new: bool) -> (r: Vec<String>)
        ensures
            r.deep_view() == validation_errors_spec(
                self.spec_mismatch(),
                self.spec_invalid_password(is_new),
            ),
            r@.len() == 0 <==> !self.spec_mismatch() && !self.spec_invalid_password(is_new),
    {
        let mut r: Vec<String> = Vec::new();
        if self.has_password_mismatch() {
            r.push("Passwords don't match".to_owned());
        }
        if self.has_invalid_password(is_new) {
            r.push("Password must be between 12 and 512 characters".to_owned());
        }
        proof {
            assert(r.deep_view() =~= validation_errors_spec(
                self.spec_mismatch(),
                self.spec_invalid_password(is_new),
            ));
        }
        r
    }
}

/// The draft fields of the change-password modal.
pub struct PasswordDraft {
    pub current_password: String,
    pub password: String,
    pub password_repeat: String,
}

impl PasswordDraft {
    /// The flow starts with all fields empty.
    pub fn for_change() -> (d: PasswordDraft)
        ensures
            d.current_password@.len() == 0,
            d.password@.len() == 0,
            d.password_repeat@.len() == 0,
    {
        PasswordDraft {
            current_password: String::new(),
            password: String::new(),
            password_repeat: String::new(),
        }
    }

    pub open spec fn spec_mismatch(self) -> bool {
        self.password@ != self.password_repeat@
    }

    pub open spec fn spec_invalid_password(self) -> bool {
        !valid_pw_text(self.password@)
    }

    pub fn has_password_mismatch(&self) -> (r: bool)
        ensures
            r == self.spec_mismatch(),
    {
        !(self.password == self.password_repeat)
    }

    pub fn has_invalid_password(&self) -> (r: bool)
        ensures
            r == self.spec_invalid_password(),
    {
        !is_valid_pw(self.password.as_str())
    }

    /// The validation error list, derived continuously from the drafts;
    /// while it is non-empty the Submit action is disabled.
    pub fn validation_errors(&self) -> (r: Vec<String>)
        ensures
            r.deep_view() == validation_errors_spec(
                self.spec_mismatch(),
                self.spec_invalid_password(),
            ),
            r@.len() == 0 <==> !self.spec_mismatch() && !self.spec_invalid_password(),
    {
        let mut r: Vec<String> = Vec::new();
        if self.has_password_mismatch() {
            r.push("Passwords don't match".to_owned());
        }
        if self.has_invalid_password() {
            r.push("Password must be between 12 and 512 characters".to_owned());
        }
        proof {
            assert(r.deep_view() =~= validation_errors_spec(
                self.spec_mismatch(),
                self.spec_invalid_password(),
            ));
        }
        r
    }
}

/// The users list's data provider: it owns the current sort and search and
/// nothing else, so each row fetch is independent. Changing the search
/// bumps an observable version — the seam a reactive consumer subscribes
/// to.
pub struct UserTableDataProvider {
    pub sort: Vec<(usize, ColumnSort)>,
    pub search: String,
    pub version: u64,
}

impl Default for UserTableDataProvider {
    /// A fresh provider: natural order, no filter.
    fn default() -> (s: Self)
        ensures
            s.sort@.len() == 0,
            s.search@.len() == 0,
            s.version == 0,
    {
        UserTableDataProvider { sort: Vec::new(), search: String::new(), version: 0 }
    }
}

impl UserTableDataProvider {
    /// The Query Spec a row fetch for this window issues: the provider's
    /// current sort and trimmed search, and the caller's range — supplied
    /// per request, never stored.
    pub fn get_rows_query(&self, range: RowRange) -> (q: UserQuery)
        ensures
            q.sort@ == self.sort@,
            q.range == range,
            q.search@ == trim_of(self.search@),
    {
        UserQuery {
            sort: copy_sort(&self.sort),
            range,
            search: trim(self.search.as_str()).to_owned(),
        }
    }

    /// Settle a row fetch: a store response becomes a Page Result clipped
    /// to the requested window; a failure is handed through as the
    /// per-call error, leaving previous rows to the caller.
    pub fn get_rows_result(range: RowRange, fetched: Result<Vec<User>, String>) -> (r: Result<
        (Vec<User>, RowRange),
        String,
    >)
        requires
            range.wf(),
        ensures
            fetched matches Ok(rows) ==> r matches Ok(p) && p.0@ == page_rows_spec(range, rows@)
                && p.1 == effective_range_spec(range, rows@),
            fetched matches Err(e) ==> r == Err::<(Vec<User>, RowRange), String>(e),
    {
        match fetched {
            Ok(rows) => Ok(make_page(range, rows)),
            Err(e) => Err(e),
        }
    }

    /// Degrade the count round-trip's outcome to an advisory total.
    pub fn row_count(fetched: Result<usize, String>) -> (r: Option<usize>)
        ensures
            fetched matches Ok(n) ==> r == Some(n),
            fetched is Err ==> r is None,
    {
        row_count_from_result(fetched)
    }

    /// Replace the current sort; refetching is the consumer's business.
    pub fn set_sorting(&mut self, sorting: &Vec<(usize, ColumnSort)>)
        ensures
            final(self).sort@ == sorting@,
            final(self).search == old(self).search,
            final(self).version == old(self).version,
    {
        self.sort = copy_sort(sorting);
    }

    /// Replace the search text and notify observers of the filter change.
    pub fn set_search(&mut self, search: String)
        requires
            old(self).version < u64::MAX,
        ensures
            final(self).search == search,
            final(self).sort == old(self).sort,
            final(self).version == old(self).version + 1,
    {
        self.search = search;
        self.version = self.version + 1;
    }

    /// Observe the filter state: consumers re-issue their query when the
    /// version they saw goes stale.
    pub fn track(&self) -> (v: u64)
        ensures
            v == self.version,
    {
        self.version
    }
}

/// Lift the hashing backend's outcome into the library's taxonomy: a
/// backend failure is an opaque hashing error.
pub fn hash_outcome(outcome: Result<String, bcrypt::BcryptError>) -> (r: Result<
    String,
    ServerError,
>)
    ensures
        outcome matches Ok(h) ==> r == Ok::<String, ServerError>(h),
        outcome is Err ==> r == Err::<String, ServerError>(ServerError::Hashing),
{
    match outcome {
        Ok(h) => Ok(h),
        Err(_) => Err(ServerError::Hashing),
    }
}

/// Hash a password for storage: rejected if and only if it is outside the
/// policy bounds; on success the stored text checks out against the
/// submitted password.
pub fn mk_password_hash(password: &str) -> (r: Result<String, ServerError>)
    ensures
        !valid_pw_text(password@) <==> r == Err::<String, ServerError>(
            ServerError::InvalidPassword,
        ),
        r matches Ok(h) ==> bcrypt_matches(password@, h@),
        r matches Err(e) ==> e == ServerError::InvalidPassword || e == ServerError::Hashing,
{
    if !is_valid_pw(password) {
        return Err(ServerError::InvalidPassword);
    }
    hash_outcome(bcrypt_hash(password))
}

/// Plan a logged-in user's password change: reauthenticate against the
/// stored hash, hash the new password, and key the update by the caller's
/// own identity. Reauthentication and validation precede the update, and
/// each failure is owed its own error: a failed or unreadable credential
/// check is wrong-credentials, an out-of-policy new password is invalid,
/// and only the hashing backend itself may fail past those.
pub fn change_password(
    principal: Option<crate::auth::User>,
    current_password: &str,
    new_password: &str,
) -> (r: Result<Statement, ServerError>)
    ensures
        principal is None <==> r == Err::<Statement, ServerError>(ServerError::Unauthorized),
        r matches Err(e) ==> (e == ServerError::Unauthorized || e == ServerError::WrongCredentials
            || e == ServerError::InvalidPassword || e == ServerError::Hashing),
        r matches Err(e) ==> (e == ServerError::InvalidPassword ==> !valid_pw_text(
            new_password@,
        )),
        r == Err::<Statement, ServerError>(ServerError::Hashing) ==> valid_pw_text(
            new_password@,
        ),
        principal matches Some(u) ==> (!bcrypt_parses(u.password@) ==> r == Err::<
            Statement,
            ServerError,
        >(ServerError::WrongCredentials)),
        principal matches Some(u) ==> (bcrypt_parses(u.password@) ==> (!bcrypt_matches(
            current_password@,
            u.password@,
        ) ==> r == Err::<Statement, ServerError>(ServerError::WrongCredentials))),
        principal matches Some(u) ==> (bcrypt_parses(u.password@) && bcrypt_matches(
            current_password@,
            u.password@,
        ) ==> (if valid_pw_text(new_password@) {
            r is Ok || r == Err::<Statement, ServerError>(ServerError::Hashing)
        } else {
            r == Err::<Statement, ServerError>(ServerError::InvalidPassword)
        })),
        r matches Ok(st) ==> principal matches Some(u) && bcrypt_matches(
            current_password@,
            u.password@,
        ) && valid_pw_text(new_password@) && st.text@
            == "UPDATE users SET password_hash = ? WHERE username = ?"@
            && st.params.deep_view().len() == 2 && (st.params.deep_view()[0] matches
        ParamV::Text(h) && bcrypt_matches(new_password@, h)) && st.params.deep_view()[1]
            == ParamV::Text(u.username@),
{
    let user = match auth_any_user(principal) {
        Ok(u) => u,
        Err(e) => { return Err(e) },
    };
    // Reauthenticate before accepting a new credential.
    match bcrypt_verify(current_password, user.password.as_str()) {
        Ok(true) => {},
        Ok(false) => { return Err(ServerError::WrongCredentials) },
        Err(_) => { return Err(ServerError::WrongCredentials) },
    }
    let hashed = match mk_password_hash(new_password) {
        Ok(h) => h,
        Err(e) => { return Err(e) },
    };
    let ghost hv = hashed@;
    let ghost name = user.username@;
    let mut params: Vec<Param> = Vec::new();
    params.push(Param::Text(hashed));
    params.push(Param::Text(user.username));
    proof {
        assert(params.deep_view() =~= seq![ParamV::Text(hv), ParamV::Text(name)]);
    }
    Ok(
        Statement {
            text: "UPDATE users SET password_hash = ? WHERE username = ?".to_owned(),
            params,
        },
    )
}

/// Plan a create-or-update round-trip of the modal workflow.
///
/// A prior identity selects the rename-safe update path, where an empty
/// password means "keep the current one"; without a prior identity a new
/// account is inserted and the password is required. The password is
/// hashed, never stored as submitted.
pub fn create_or_update_user(
    principal: Option<crate::auth::User>,
    old_username: Option<String>,
    username: String,
    password: &str,
    admin: bool,
    active: bool,
) -> (r: Result<Statement, ServerError>)
    ensures
        r == Err::<Statement, ServerError>(ServerError::Unauthorized) <==> !(principal matches
        Some(u) && u.admin),
        r matches Err(e) ==> (e == ServerError::Unauthorized || e == ServerError::InvalidPassword
            || e == ServerError::Hashing),
        r matches Err(e) ==> (e == ServerError::InvalidPassword ==> !valid_pw_text(password@)),
        r == Err::<Statement, ServerError>(ServerError::Hashing) ==> valid_pw_text(password@)
            && (old_username is None || password@.len() > 0),
        principal matches Some(u) ==> (u.admin ==> ((old_username is None || password@.len() > 0)
            && !valid_pw_text(password@) ==> r == Err::<Statement, ServerError>(
            ServerError::InvalidPassword,
        ))),
        principal matches Some(u) ==> (u.admin ==> (valid_pw_text(password@) ==> (r is Ok || r
            == Err::<Statement, ServerError>(ServerError::Hashing)))),
        old_username matches Some(prior) ==> (principal matches Some(u) ==> (u.admin
            && password@.len() == 0 ==> (r matches Ok(st) && st.text@
            == "UPDATE users SET admin = ?, active = ? WHERE username = ?"@
            && st.params.deep_view() == seq![
            ParamV::Bool(admin),
            ParamV::Bool(active),
            ParamV::Text(prior@),
        ]))),
        r matches Ok(st) ==> (old_username matches Some(prior) ==> (password@.len() > 0
            ==> st.text@ == "UPDATE users SET admin = ?, password_hash = ?, active = ? WHERE username = ?"@
            && st.params.deep_view().len() == 4 && st.params.deep_view()[0] == ParamV::Bool(
            admin,
        ) && (st.params.deep_view()[1] matches ParamV::Text(h) && bcrypt_matches(
            password@,
            h,
        )) && st.params.deep_view()[2] == ParamV::Bool(active) && st.params.deep_view()[3]
            == ParamV::Text(prior@))),
        r matches Ok(st) ==> (old_username is None ==> st.text@
            == "INSERT INTO users (username, password_hash, admin, active) VALUES (?, ?, ?, ?)"@
            && st.params.deep_view().len() == 4 && st.params.deep_view()[0] == ParamV::Text(
            username@,
        ) && (st.params.deep_view()[1] matches ParamV::Text(h) && bcrypt_matches(
            password@,
            h,
        )) && st.params.deep_view()[2] == ParamV::Bool(admin) && st.params.deep_view()[3]
            == ParamV::Bool(active)),
{
    let ghost new_name = username@;
    if let Err(e) = auth_admin(principal) {
        return Err(e);
    }
    match old_username {
        Some(prior) => {
            let ghost old_name = prior@;
            if password.is_empty() {
                let mut params: Vec<Param> = Vec::new();
                params.push(Param::Bool(admin));
                params.push(Param::Bool(active));
                params.push(Param::Text(prior));
                proof {
                    assert(params.deep_view() =~= seq![
                        ParamV::Bool(admin),
                        ParamV::Bool(active),
                        ParamV::Text(old_name),
                    ]);
                }
                Ok(
                    Statement {
                        text: "UPDATE users SET admin = ?, active = ? WHERE username = ?".to_owned(),
                        params,
                    },
                )
            } else {
                let hashed = match mk_password_hash(password) {
                    Ok(h) => h,
                    Err(e) => { return Err(e) },
                };
                let ghost hv = hashed@;
                let mut params: Vec<Param> = Vec::new();
                params.push(Param::Bool(admin));
                params.push(Param::Text(hashed));
                params.push(Param::Bool(active));
                params.push(Param::Text(prior));
                proof {
                    assert(params.deep_view() =~= seq![
                        ParamV::Bool(admin),
                        ParamV::Text(hv),
                        ParamV::Bool(active),
                        ParamV::Text(old_name),
                    ]);
                }
                Ok(
                    Statement {
                        text:
                            "UPDATE users SET admin = ?, password_hash = ?, active = ? WHERE username = ?".to_owned(),
                        params,
                    },
                )
            }
        },
        None => {
            let hashed = match mk_password_hash(password) {
                Ok(h) => h,
                Err(e) => { return Err(e) },
            };
            let ghost hv = hashed@;
            let mut params: Vec<Param> = Vec::new();
            params.push(Param::Text(username));
            params.push(Param::Text(hashed));
            params.push(Param::Bool(admin));
            params.push(Param::Bool(active));
            proof {
                assert(params.deep_view() =~= seq![
                    ParamV::Text(new_name),
                    ParamV::Text(hv),
                    ParamV::Bool(admin),
                    ParamV::Bool(active),
                ]);
            }
            Ok(
                Statement {
                    text:
                        "INSERT INTO users (username, password_hash, admin, active) VALUES (?, ?, ?, ?)".to_owned(),
                    params,
                },
            )
        },
    }
}

} // verus!
