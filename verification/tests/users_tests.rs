use idmail::auth::{auth_admin, auth_any_user, login};
use idmail::query::{ColumnSort, Param, QuerySpec, RowRange};
use idmail::users::{
    change_password, create_or_update_user, delete_user, is_valid_pw, list_users,
    mk_password_hash, update_user_admin_or_active, user_count, users_default_sort,
    UserTableDataProvider,
};
use idmail::utils::ServerError;

fn principal(admin: bool) -> idmail::auth::User {
    idmail::auth::User {
        username: "root".to_string(),
        password: "".to_string(),
        mailbox: false,
        admin,
        active: true,
    }
}

#[test]
fn password_policy_bounds() {
    assert!(!is_valid_pw(""));
    assert!(!is_valid_pw("elevenchars"));
    assert!(is_valid_pw("twelve-chars"));
    assert!(is_valid_pw(&"x".repeat(1024)));
    assert!(!is_valid_pw(&"x".repeat(1025)));
}

#[test]
fn admin_gate_fails_closed() {
    assert_eq!(auth_admin(None), Err(ServerError::Unauthorized));
    assert_eq!(auth_admin(Some(principal(false))), Err(ServerError::Unauthorized));
    assert_eq!(auth_admin(Some(principal(true))), Ok(principal(true)));
    assert_eq!(auth_any_user(None), Err(ServerError::Unauthorized));
    assert_eq!(auth_any_user(Some(principal(false))), Ok(principal(false)));
}

#[test]
fn list_users_requires_admin() {
    let q = QuerySpec {
        sort: vec![(3, ColumnSort::Descending)],
        range: RowRange::new(0, 25),
        search: "bo".to_string(),
    };
    assert!(list_users(None, &q).is_err());
    assert!(list_users(Some(principal(false)), &q).is_err());
    let c = list_users(Some(principal(true)), &q).unwrap();
    assert_eq!(
        c.statement("SELECT * FROM users"),
        "SELECT * FROM users WHERE username LIKE concat('%', ?, '%') \
         ORDER BY created_at DESC LIMIT ? OFFSET ?"
    );
    assert_eq!(c.bindings, vec!["bo".to_string()]);
    assert_eq!(c.limit, 25);
    assert_eq!(c.offset, 0);
}

#[test]
fn user_count_requires_admin() {
    assert!(user_count(None, &"".to_string()).is_err());
    let st = user_count(Some(principal(true)), &"".to_string()).unwrap();
    assert_eq!(st.text, "SELECT COUNT(*) FROM users");
    assert!(st.params.is_empty());
}

#[test]
fn delete_user_statement() {
    assert!(delete_user(None, "alice".to_string()).is_err());
    let st = delete_user(Some(principal(true)), "alice".to_string()).unwrap();
    assert_eq!(st.text, "DELETE FROM users WHERE username = ?");
    assert_eq!(st.params.len(), 1);
    assert!(matches!(&st.params[0], Param::Text(t) if t == "alice"));
}

#[test]
fn inline_toggle_statement() {
    let st =
        update_user_admin_or_active(Some(principal(true)), "bob".to_string(), true, false)
            .unwrap();
    assert_eq!(st.text, "UPDATE users SET admin = ?, active = ? WHERE username = ?");
    assert_eq!(st.params.len(), 3);
    assert!(matches!(st.params[0], Param::Bool(true)));
    assert!(matches!(st.params[1], Param::Bool(false)));
    assert!(matches!(&st.params[2], Param::Text(t) if t == "bob"));
}

#[test]
fn password_hash_round_trips_through_login() {
    let hashed = mk_password_hash("a-proper-password!").unwrap();
    assert_ne!(hashed, "a-proper-password!");
    let stored = idmail::auth::User {
        username: "alice".to_string(),
        password: hashed,
        mailbox: false,
        admin: false,
        active: true,
    };
    assert_eq!(login(Some(stored.clone()), "a-proper-password!"), Ok("alice".to_string()));
    assert_eq!(
        login(Some(stored), "a-wrong-password!!"),
        Err(ServerError::WrongCredentials)
    );
    assert_eq!(login(None, "a-proper-password!"), Err(ServerError::WrongCredentials));
}

#[test]
fn principal_lookup_statement() {
    let st = idmail::auth::User::get("alice".to_string());
    assert_eq!(
        st.text,
        "SELECT username, password, FALSE AS mailbox, admin, active \
         FROM users WHERE username = $1 \
         UNION SELECT address AS username, password, TRUE AS mailbox, FALSE AS admin, active \
         FROM mailboxes WHERE address = $1"
    );
    assert_eq!(st.params, vec![Param::Text("alice".to_string())]);
}

#[test]
fn short_password_is_rejected_before_hashing() {
    assert_eq!(mk_password_hash("short"), Err(ServerError::InvalidPassword));
}

#[test]
fn change_password_reauthenticates() {
    let current_hash = mk_password_hash("the-current-pass").unwrap();
    let me = idmail::auth::User {
        username: "carol".to_string(),
        password: current_hash,
        mailbox: false,
        admin: false,
        active: true,
    };
    assert_eq!(
        change_password(None, "the-current-pass", "a-new-password!!"),
        Err(ServerError::Unauthorized)
    );
    assert_eq!(
        change_password(Some(me.clone()), "not-the-current", "a-new-password!!"),
        Err(ServerError::WrongCredentials)
    );
    assert_eq!(
        change_password(Some(me.clone()), "the-current-pass", "short"),
        Err(ServerError::InvalidPassword)
    );
    let st = change_password(Some(me), "the-current-pass", "a-new-password!!").unwrap();
    assert_eq!(st.text, "UPDATE users SET password_hash = ? WHERE username = ?");
    assert_eq!(st.params.len(), 2);
    assert!(matches!(&st.params[1], Param::Text(t) if t == "carol"));
}

#[test]
fn create_inserts_with_hashed_password() {
    let st = create_or_update_user(
        Some(principal(true)),
        None,
        "dave".to_string(),
        "daves-long-password",
        false,
        true,
    )
    .unwrap();
    assert_eq!(
        st.text,
        "INSERT INTO users (username, password_hash, admin, active) VALUES (?, ?, ?, ?)"
    );
    assert_eq!(st.params.len(), 4);
    assert!(matches!(&st.params[0], Param::Text(t) if t == "dave"));
    assert!(matches!(&st.params[1], Param::Text(h) if h != "daves-long-password"));
    assert!(matches!(st.params[2], Param::Bool(false)));
    assert!(matches!(st.params[3], Param::Bool(true)));
}

#[test]
fn update_without_password_keeps_hash() {
    let st = create_or_update_user(
        Some(principal(true)),
        Some("dave".to_string()),
        "dave".to_string(),
        "",
        true,
        false,
    )
    .unwrap();
    assert_eq!(st.text, "UPDATE users SET admin = ?, active = ? WHERE username = ?");
    assert_eq!(st.params.len(), 3);
    assert!(matches!(st.params[0], Param::Bool(true)));
    assert!(matches!(st.params[1], Param::Bool(false)));
    assert!(matches!(&st.params[2], Param::Text(t) if t == "dave"));
}

#[test]
fn update_with_password_rehashes() {
    let st = create_or_update_user(
        Some(principal(true)),
        Some("dave".to_string()),
        "dave".to_string(),
        "daves-new-password!",
        true,
        true,
    )
    .unwrap();
    assert_eq!(
        st.text,
        "UPDATE users SET admin = ?, password_hash = ?, active = ? WHERE username = ?"
    );
    assert_eq!(st.params.len(), 4);
    assert!(matches!(&st.params[1], Param::Text(h) if h != "daves-new-password!"));
    assert!(matches!(&st.params[3], Param::Text(t) if t == "dave"));
}

#[test]
fn invalid_password_is_rejected_on_every_hashing_path() {
    // Creating with a short password fails with the validation error.
    let r = create_or_update_user(
        Some(principal(true)),
        None,
        "eve".to_string(),
        "short",
        false,
        true,
    );
    assert_eq!(r, Err(ServerError::InvalidPassword));
    // So does updating with a non-empty short password.
    let r = create_or_update_user(
        Some(principal(true)),
        Some("eve".to_string()),
        "eve".to_string(),
        "short",
        false,
        true,
    );
    assert_eq!(r, Err(ServerError::InvalidPassword));
}

#[test]
fn default_sort_is_created_at_descending() {
    assert_eq!(users_default_sort(), vec![(3, ColumnSort::Descending)]);
}

#[test]
fn malformed_stored_hash_fails_closed() {
    // A stored hash the backend cannot parse rejects the login and the
    // reauthentication, with no detail leaked.
    let broken = idmail::auth::User {
        username: "mallory".to_string(),
        password: "not-a-bcrypt-hash".to_string(),
        mailbox: false,
        admin: false,
        active: true,
    };
    assert_eq!(
        login(Some(broken.clone()), "whatever-password"),
        Err(ServerError::WrongCredentials)
    );
    assert_eq!(
        change_password(Some(broken), "whatever-password", "a-new-password!!"),
        Err(ServerError::WrongCredentials)
    );
}

#[test]
fn create_or_update_requires_admin() {
    let r = create_or_update_user(
        Some(principal(false)),
        None,
        "eve".to_string(),
        "eves-long-password!",
        false,
        true,
    );
    assert_eq!(r, Err(ServerError::Unauthorized));
}

#[test]
fn provider_trims_search_and_tracks_changes() {
    let mut p = UserTableDataProvider::default();
    assert_eq!(p.track(), 0);
    p.set_search("  bob  ".to_string());
    assert_eq!(p.track(), 1);
    let q = p.get_rows_query(RowRange::new(0, 10));
    assert_eq!(q.search, "bob");
    assert_eq!(q.range, RowRange::new(0, 10));
    assert!(q.sort.is_empty());
    p.set_sorting(&vec![(3, ColumnSort::Descending)]);
    let q = p.get_rows_query(RowRange::new(5, 15));
    assert_eq!(q.sort, vec![(3, ColumnSort::Descending)]);
    // Setting the sort does not count as a filter change.
    assert_eq!(p.track(), 1);
}

#[test]
fn provider_clips_page_and_degrades_count() {
    let rows = vec![
        idmail::users::User {
            username: "a".to_string(),
            password_hash: "h".to_string(),
            admin: false,
            active: true,
            created_at: 0,
        },
        idmail::users::User {
            username: "b".to_string(),
            password_hash: "h".to_string(),
            admin: false,
            active: true,
            created_at: 1,
        },
    ];
    let range = RowRange::new(4, 5);
    let (page, effective) = UserTableDataProvider::get_rows_result(range, Ok(rows)).unwrap();
    assert_eq!(page.len(), 1);
    assert_eq!(page[0].username, "a");
    assert_eq!(effective, RowRange::new(4, 5));

    let err = UserTableDataProvider::get_rows_result(range, Err("down".to_string()));
    assert_eq!(err.unwrap_err(), "down");

    assert_eq!(UserTableDataProvider::row_count(Ok(7)), Some(7));
    assert_eq!(UserTableDataProvider::row_count(Err("down".to_string())), None);
}
