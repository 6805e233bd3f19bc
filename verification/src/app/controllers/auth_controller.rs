use vstd::prelude::*;

use crate::app::errors::ServiceError;
use crate::app::middleware::session_user::last_row;
use crate::app::models::session::Session;
use crate::app::models::timestamp::is_clock_reading;
use crate::app::models::user::User;
use crate::app::security::is_session_token;

verus! {

/// Login request data.
#[derive(Debug, Clone)]
pub struct AuthRequestData {
    pub name: String,
    pub password: String,
}

/// What a login asks for next, or how it answers.
#[derive(Debug, Clone)]
pub enum LoginStep {
    /// Check `password` against the stored password hash of `user`.
    VerifyPassword { user: User, password: String },
    /// Store this new session and remember its token as the caller's identity.
    CreateSession(Session),
    /// Answer with this error.
    Fail(ServiceError),
}

/// After the users stored under the requested name came back: the last one is
/// checked against the password; none means unauthorized.
pub open spec fn query_login_users_found_spec(auth_data: AuthRequestData, rows: Seq<User>) -> LoginStep {
    match last_row(rows) {
        Some(user) => LoginStep::VerifyPassword { user, password: auth_data.password },
        None => LoginStep::Fail(ServiceError::Unauthorized),
    }
}

/// A step that creates a fresh session for `user_id`.
pub open spec fn creates_session_for(step: LoginStep, user_id: i32) -> bool {
    &&& step matches LoginStep::CreateSession(s)
    &&& s.user_id == user_id
    &&& is_session_token(s.token@)
    &&& is_clock_reading(s.created_at)
    &&& is_clock_reading(s.last_accessed_at)
    &&& s.accessed_by_client_ip is None
}

/// Continues a login with the users stored under the requested name.
pub fn query_login_users_found(auth_data: AuthRequestData, rows: Vec<User>) -> (r: LoginStep)
    ensures
        r == query_login_users_found_spec(auth_data, rows@),
        rows@.len() > 0 ==> r == (LoginStep::VerifyPassword {
            user: rows@[rows@.len() - 1],
            password: auth_data.password,
        }),
        rows@.len() == 0 ==> r == LoginStep::Fail(ServiceError::Unauthorized),
{
    let mut rows = rows;
    match rows.pop() {
        Some(user) => LoginStep::VerifyPassword { user, password: auth_data.password },
        None => LoginStep::Fail(ServiceError::Unauthorized),
    }
}

/// Finishes a login once the password was checked against `user`'s hash:
/// a match creates a fresh session for the user; a mismatch, or a hash that
/// could not be checked, is unauthorized.
pub fn query_login_password_checked(user: User, verification: Result<bool, ServiceError>) -> (r: LoginStep)
    ensures
        verification == Ok::<bool, ServiceError>(true) ==> creates_session_for(r, user.id),
        verification != Ok::<bool, ServiceError>(true) ==> r == LoginStep::Fail(ServiceError::Unauthorized),
{
    match verification {
        Ok(true) => LoginStep::CreateSession(Session::create(user.id)),
        _ => LoginStep::Fail(ServiceError::Unauthorized),
    }
}

} // verus!
