use vstd::prelude::*;

use crate::app::errors::ServiceError;
use crate::app::models::session::Session;
use crate::app::models::user::{SlimUser, User, slim_user_of};

verus! {

/// The user of an authenticated request: the slim user record.
pub type SessionUser = SlimUser;

/// The last of the rows a query returned, if any.
pub open spec fn last_row<T>(rows: Seq<T>) -> Option<T> {
    if rows.len() == 0 {
        None
    } else {
        Some(rows.last())
    }
}

/// What the session-user extractor asks for next, or how it answers.
#[derive(Debug, Clone)]
pub enum SessionUserStep {
    /// Load the sessions stored under this identity token.
    FindSessions { token: String },
    /// Load the users with this id, for the session stored under `token`.
    FindUser { token: String, user_id: i32 },
    /// Record the access of the session stored under `token` (time and
    /// client address), then answer with `user`.
    Touch { token: String, user: SessionUser },
    /// Answer with this error.
    Fail(ServiceError),
}

/// The first decision: a request without an identity cookie is unauthorized.
pub open spec fn session_user_start_spec(identity: Option<String>) -> SessionUserStep {
    match identity {
        Some(token) => SessionUserStep::FindSessions { token },
        None => SessionUserStep::Fail(ServiceError::Unauthorized),
    }
}

/// After the sessions stored under `token` came back: the last one names the
/// user to load; none means unauthorized.
pub open spec fn session_user_sessions_found_spec(token: String, rows: Seq<Session>) -> SessionUserStep {
    match last_row(rows) {
        Some(s) => SessionUserStep::FindUser { token, user_id: s.user_id },
        None => SessionUserStep::Fail(ServiceError::Unauthorized),
    }
}

/// After the users with the session's user id came back: the last one is the
/// request's user; none means unauthorized.
pub open spec fn session_user_users_found_spec(token: String, rows: Seq<User>) -> SessionUserStep {
    match last_row(rows) {
        Some(u) => SessionUserStep::Touch { token, user: slim_user_of(u) },
        None => SessionUserStep::Fail(ServiceError::Unauthorized),
    }
}

/// Starts reading the session user of a request from its identity cookie.
pub fn session_user_start(identity: Option<String>) -> (r: SessionUserStep)
    ensures
        r == session_user_start_spec(identity),
{
    match identity {
        Some(token) => SessionUserStep::FindSessions { token },
        None => SessionUserStep::Fail(ServiceError::Unauthorized),
    }
}

/// Continues with the sessions stored under the identity token.
pub fn session_user_sessions_found(token: String, rows: Vec<Session>) -> (r: SessionUserStep)
    ensures
        r == session_user_sessions_found_spec(token, rows@),
{
    let mut rows = rows;
    match rows.pop() {
        Some(session) => SessionUserStep::FindUser { token, user_id: session.user_id },
        None => SessionUserStep::Fail(ServiceError::Unauthorized),
    }
}

/// Queries the user of the session: the last of the users with the session's
/// user id, as a slim record; unauthorized where there is none.
pub fn query_session_user(rows: Vec<User>) -> (r: Result<SessionUser, ServiceError>)
    ensures
        r == (match last_row(rows@) {
            Some(u) => Ok(slim_user_of(u)),
            None => Err(ServiceError::Unauthorized),
        }),
{
    let mut rows = rows;
    match rows.pop() {
        Some(user) => Ok(SlimUser::from(user)),
        None => Err(ServiceError::Unauthorized),
    }
}

/// Continues with the users stored under the session's user id.
pub fn session_user_users_found(token: String, rows: Vec<User>) -> (r: SessionUserStep)
    ensures
        r == session_user_users_found_spec(token, rows@),
{
    match query_session_user(rows) {
        Ok(user) => SessionUserStep::Touch { token, user },
        Err(e) => SessionUserStep::Fail(e),
    }
}

} // verus!
