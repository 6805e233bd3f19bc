use vstd::prelude::*;

use crate::app::models::session::{SessionAuth, SessionRecord, SessionUser};
use crate::app::models::user::User;
use crate::app::models::timestamp::{Timestamp, is_clock_reading, utc_now};
use crate::app::security::{bcrypt_check, bcrypt_check_spec};

verus! {

/// The id of the session row that a cookie's contents name (the stored id is
/// an `i32`; the cookie carries it as an `i64`).
pub fn session_row_id(auth: &SessionAuth) -> (id: i32)
    ensures
        id == auth.session_id as i32,
{
    auth.session_id as i32
}

/// The outcome of checking a cookie's access token against its session row.
#[derive(Debug, Clone, Copy, PartialEq, Eq, Structural)]
pub enum SessionAccess {
    /// The token matches: load the user with this id.
    FindUser(i32),
    /// No session row, or the token does not match: no user.
    Deny,
    /// The stored hash could not be read by bcrypt.
    VerifyFailed,
}

/// What checking `token` against the stored session row (`None` where there is
/// none) yields.
pub open spec fn session_access_spec(token: Seq<char>, row: Option<SessionRecord>) -> SessionAccess {
    match row {
        None => SessionAccess::Deny,
        Some(row) => match bcrypt_check_spec(token, row.hashed_access_token@) {
            Some(true) => SessionAccess::FindUser(row.user_id),
            Some(false) => SessionAccess::Deny,
            None => SessionAccess::VerifyFailed,
        },
    }
}

/// Verifies the cookie's access token against the stored bcrypt hash of the
/// session row it names; a missing row grants no access.
pub fn check_session_access(auth: &SessionAuth, row: Option<SessionRecord>) -> (r: SessionAccess)
    ensures
        r == session_access_spec(auth.access_token@, row),
{
    match row {
        None => SessionAccess::Deny,
        Some(row) => match bcrypt_check(auth.access_token.as_str(), row.hashed_access_token.as_str()) {
            Some(true) => SessionAccess::FindUser(row.user_id),
            Some(false) => SessionAccess::Deny,
            None => SessionAccess::VerifyFailed,
        },
    }
}

/// A cookie is still valid at `now` until the second it expires (inclusive).
pub open spec fn is_unexpired(auth: SessionAuth, now: Timestamp) -> bool {
    now.secs <= auth.exp
}

/// Keeps the cookie's contents only while they have not expired at `now`.
pub fn unexpired_session_auth_at(auth: Option<SessionAuth>, now: Timestamp) -> (r: Option<SessionAuth>)
    ensures
        r == (match auth {
            Some(a) => if is_unexpired(a, now) { Some(a) } else { None },
            None => None::<SessionAuth>,
        }),
{
    match auth {
        Some(a) => if now.secs <= a.exp { Some(a) } else { None },
        None => None,
    }
}

/// Keeps the cookie's contents only while they have not expired now.
pub fn unexpired_session_auth(auth: Option<SessionAuth>) -> (r: Option<SessionAuth>)
    ensures
        exists|now: Timestamp| is_clock_reading(now) && r == (match auth {
            Some(a) => if is_unexpired(a, now) { Some(a) } else { None },
            None => None::<SessionAuth>,
        }),
{
    let now = utc_now();
    unexpired_session_auth_at(auth, now)
}

/// The user found for a session (`None` where no row has the session's user
/// id), as handed to request handlers.
pub fn session_auth_user(user: Option<User>) -> (r: Option<User>)
    ensures
        user is None ==> r is None,
        user matches Some(u) ==> (r matches Some(v) && v.id == u.id && v.name == u.name
            && v.passhash@ == Seq::<char>::empty() && v.created_at == u.created_at),
{
    match user {
        Some(u) => Some(scrub_user(u)),
        None => None,
    }
}

/// The user record as handed to request handlers: the stored password hash is
/// erased.
pub fn scrub_user(user: User) -> (r: User)
    ensures
        r.id == user.id,
        r.name == user.name,
        r.passhash@ == Seq::<char>::empty(),
        r.created_at == user.created_at,
{
    let mut user = user;
    user.passhash = String::new();
    user
}

/// The session state of a request, from the cookie's contents and the user
/// they authenticate: both are kept where both are present; otherwise the
/// request has no session.
pub fn session_user_from_parts(auth: Option<SessionAuth>, user: Option<User>) -> (r: SessionUser)
    ensures
        (auth is Some && user is Some) ==> r == (SessionUser { auth, user }),
        !(auth is Some && user is Some) ==> r.auth is None && r.user is None,
{
    if auth.is_some() && user.is_some() {
        SessionUser { auth, user }
    } else {
        SessionUser { auth: None, user: None }
    }
}

} // verus!
