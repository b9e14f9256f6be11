//! Authentication and authorization decisions.
//!
//! The ambient session is out of scope: every decision here takes the
//! resolved principal as an explicit argument and fails closed. Password
//! hashes are produced and checked by the bcrypt backend behind trusted
//! wrappers; everything decided from their results is verified.

use crate::utils::ServerError;
use vstd::prelude::*;

verus! {

/// The authenticated principal: a user account or a mailbox.
#[derive(Clone, Debug, PartialEq, Eq)]
pub struct User {
    /// The username / mailbox address
    pub username: String,
    /// The associated password hash
    pub password: String,
    /// Whether the user is a mailbox
    pub mailbox: bool,
    /// Whether the user is an admin
    pub admin: bool,
    /// Whether the user is active
    pub active: bool,
}

impl User {
    /// Plan the lookup of a principal by name: a user account, or a
    /// mailbox exposed as a non-admin principal. The name is bound once
    /// and referenced positionally.
    pub fn get(username: String) -> (st: crate::query::Statement)
        ensures
            st.text@ == "SELECT username, password, FALSE AS mailbox, admin, active FROM users WHERE username = $1 UNION SELECT address AS username, password, TRUE AS mailbox, FALSE AS admin, active FROM mailboxes WHERE address = $1"@,
            st.params.deep_view() == seq![crate::query::ParamV::Text(username@)],
    {
        let ghost name = username@;
        let mut params: Vec<crate::query::Param> = Vec::new();
        params.push(crate::query::Param::Text(username));
        proof {
            assert(params.deep_view() =~= seq![crate::query::ParamV::Text(name)]);
        }
        crate::query::Statement {
            text:
                "SELECT username, password, FALSE AS mailbox, admin, active FROM users WHERE username = $1 UNION SELECT address AS username, password, TRUE AS mailbox, FALSE AS admin, active FROM mailboxes WHERE address = $1".to_owned(),
            params,
        }
    }

    /// A loaded principal counts as authenticated.
    pub fn is_authenticated(&self) -> (r: bool)
        ensures
            r,
    {
        true
    }

    /// Whether the account may act at all.
    pub fn is_active(&self) -> (r: bool)
        ensures
            r == self.active,
    {
        self.active
    }

    /// A loaded principal is never the anonymous one.
    pub fn is_anonymous(&self) -> (r: bool)
        ensures
            !r,
    {
        false
    }

    /// Named permissions are not granted to anyone.
    pub fn has(&self, _perm: &str) -> (r: bool)
        ensures
            !r,
    {
        false
    }
}

/// Outcome of checking a password against a stored bcrypt hash: a function
/// of the two texts alone, the same in every process and on every machine.
/// It is the result that `bcrypt::verify` names; a hash fresh from
/// `bcrypt::hash` satisfies it for the hashed password.
pub uninterp spec fn bcrypt_matches(password: Seq<char>, hashed: Seq<char>) -> bool;

/// Whether a stored hash is well-formed for the checking backend: it splits
/// into version, cost within range, salt and digest. A function of the hash
/// text alone — the password plays no part — it is exactly when
/// `bcrypt::verify` returns an outcome rather than an error.
pub uninterp spec fn bcrypt_parses(hashed: Seq<char>) -> bool;

/// Declares bcrypt::BcryptError, the hashing backend's failure type, so
/// that the wrappers below can return it; the library reads nothing inside
/// it and maps it to its own taxonomy.
#[verifier::external_type_specification]
#[verifier::external_body]
pub struct ExBcryptError(bcrypt::BcryptError);

/// Relies on bcrypt::hash with the default cost: on success the returned
/// text is a hash of the password, so checking the password against it
/// succeeds; it fails only when the system's randomness source does, and it
/// never panics.
#[verifier::external_body]
pub(crate) fn bcrypt_hash(password: &str) -> (r: Result<String, bcrypt::BcryptError>)
    ensures
        r matches Ok(h) ==> bcrypt_matches(password@, h@),
{
    bcrypt::hash(password, bcrypt::DEFAULT_COST)
}

/// Relies on bcrypt::verify: it recomputes the hash of the password with
/// the salt and cost taken from the stored hash and compares; the outcome
/// depends on the two texts alone. It fails exactly when the stored hash
/// is malformed — the password cannot make it fail — and it never panics.
#[verifier::external_body]
pub(crate) fn bcrypt_verify(password: &str, hashed: &str) -> (r: Result<
    bool,
    bcrypt::BcryptError,
>)
    ensures
        r is Ok <==> bcrypt_parses(hashed@),
        r matches Ok(b) ==> b == bcrypt_matches(password@, hashed@),
{
    bcrypt::verify(password, hashed)
}

/// Admit only an elevated principal: the caller must be logged in and an
/// admin, otherwise the check fails closed with no detail.
pub fn auth_admin(user: Option<User>) -> (r: Result<User, ServerError>)
    ensures
        r matches Ok(u) ==> user == Some(u) && u.admin,
        r matches Err(e) ==> e == ServerError::Unauthorized && (user matches Some(u) ==> !u.admin),
        user matches Some(u) ==> (u.admin ==> r == Ok::<User, ServerError>(u)),
{
    match user {
        Some(u) => {
            if u.admin {
                Ok(u)
            } else {
                Err(ServerError::Unauthorized)
            }
        },
        None => Err(ServerError::Unauthorized),
    }
}

/// Admit any logged-in principal.
pub fn auth_any_user(user: Option<User>) -> (r: Result<User, ServerError>)
    ensures
        r matches Ok(u) ==> user == Some(u),
        r matches Err(e) ==> e == ServerError::Unauthorized && user is None,
        user matches Some(u) ==> r == Ok::<User, ServerError>(u),
{
    match user {
        Some(u) => Ok(u),
        None => Err(ServerError::Unauthorized),
    }
}

/// Decide a login from the credential check's outcome: only a positive
/// check logs the user in; a negative or failed check (a malformed stored
/// hash) is a wrong-credentials failure, with no detail leaked.
pub fn login_verified(user: User, checked: Result<bool, bcrypt::BcryptError>) -> (r: Result<
    String,
    ServerError,
>)
    ensures
        checked matches Ok(b) ==> (if b {
            r == Ok::<String, ServerError>(user.username)
        } else {
            r == Err::<String, ServerError>(ServerError::WrongCredentials)
        }),
        checked is Err ==> r == Err::<String, ServerError>(ServerError::WrongCredentials),
{
    match checked {
        Ok(true) => Ok(user.username),
        Ok(false) => Err(ServerError::WrongCredentials),
        Err(_) => Err(ServerError::WrongCredentials),
    }
}

/// Decide a login attempt: an unknown user or a failed password check is
/// rejected; a known user whose password checks out is logged in, and the
/// name to bind the session to is returned. For a well-formed stored hash
/// the outcome is owed in both directions: a matching password logs in,
/// anything else is rejected.
pub fn login(fetched: Option<User>, password: &str) -> (r: Result<String, ServerError>)
    ensures
        fetched is None ==> r == Err::<String, ServerError>(ServerError::WrongCredentials),
        r matches Ok(name) ==> fetched matches Some(u) && name == u.username
            && bcrypt_matches(password@, u.password@),
        r matches Err(e) ==> e == ServerError::WrongCredentials,
        fetched matches Some(u) ==> (bcrypt_parses(u.password@) ==> r == (if bcrypt_matches(
            password@,
            u.password@,
        ) {
            Ok::<String, ServerError>(u.username)
        } else {
            Err::<String, ServerError>(ServerError::WrongCredentials)
        })),
{
    match fetched {
        None => Err(ServerError::WrongCredentials),
        Some(u) => {
            let checked = bcrypt_verify(password, u.password.as_str());
            login_verified(u, checked)
        },
    }
}

} // verus!
