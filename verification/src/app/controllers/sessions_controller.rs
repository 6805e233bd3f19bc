use vstd::prelude::*;

use crate::app::models::session::{NewSession, SessionAuth, SessionRecord, SessionUser};
use crate::app::models::timestamp::{Timestamp, is_clock_reading, utc_now};
use crate::app::models::user::User;
use crate::app::security::{
    bcrypt_check, bcrypt_check_spec, bcrypt_hash, bcrypt_verify_spec, is_alphanumeric_ascii,
    is_bcrypt_hash, random_alphanumeric,
};

verus! {

/// bcrypt cost of the stored access-token hashes.
pub const BCRYPT_COST: u32 = 11;

/// Days until a session cookie expires.
pub const SESSION_DAYS: i64 = 14;

/// Seconds in a day.
pub const SECONDS_PER_DAY: i64 = 86_400;

/// Length of the access token handed out at login.
pub const ACCESS_TOKEN_LENGTH: usize = 32;

/// Name of the private cookie that carries the session.
pub const SESSION_COOKIE_NAME: &'static str = "session_user_jwt_cookie";

/// Answer to a successful login.
pub const LOGIN_SUCCESS: &'static str = "Login success";

/// Answer to a failed login.
pub const INVALID_LOGIN: &'static str = "Invalid username or password";

/// Answer to a logout.
pub const LOGOUT_SUCCESS: &'static str = "Logout Success!";

/// Params for login to new session.
#[derive(Debug, Clone)]
pub struct NewSessionRequest {
    pub user_name: String,
    /// Password as pre-hashed by the client.
    pub one_hashed: String,
}

/// What a login asks for next, or how it answers.
#[derive(Debug, Clone)]
pub enum SessionLoginStep {
    /// Store this session row, then hand `access_token` to the client in the
    /// session cookie.
    Insert { session: NewSession, access_token: String },
    /// Refuse the login with this message.
    Reject(String),
    /// The stored password hash could not be read by bcrypt.
    VerifyFailed,
    /// bcrypt could not hash the new access token (no random salt).
    HashFailed,
}

/// An access token handed out at login: `ACCESS_TOKEN_LENGTH` characters of
/// `A-Z`, `a-z`, `0-9`.
pub open spec fn is_access_token(t: Seq<char>) -> bool {
    &&& t.len() == ACCESS_TOKEN_LENGTH
    &&& forall|i: int| 0 <= i < t.len() ==> #[trigger] is_alphanumeric_ascii(t[i])
}

/// A fresh session row for `user_id` whose stored hash is a bcrypt hash at
/// `BCRYPT_COST` that verifies `access_token`.
pub open spec fn is_fresh_session(session: NewSession, access_token: Seq<char>, user_id: i32) -> bool {
    &&& session.user_id == user_id
    &&& is_bcrypt_hash(session.hashed_access_token@, BCRYPT_COST)
    &&& bcrypt_verify_spec(access_token, session.hashed_access_token@) == Some(true)
    &&& is_clock_reading(session.created_at)
    &&& is_clock_reading(session.last_accessed_at)
    &&& session.accessed_by_client_ip is None
}

/// The step that refuses a login.
pub open spec fn is_rejection(step: SessionLoginStep) -> bool {
    step matches SessionLoginStep::Reject(m) && m@ == INVALID_LOGIN@
}

/// Continues a login with the user stored under the requested name (`None`
/// where there is none): the pre-hashed password must verify against the
/// user's stored bcrypt hash; then a fresh alphanumeric access token is drawn
/// and its bcrypt hash stored in a new session row.
pub fn sessions_login_user_found(attr: &NewSessionRequest, user: Option<User>) -> (r: SessionLoginStep)
    ensures
        user is None ==> is_rejection(r),
        user matches Some(u) ==> match bcrypt_check_spec(attr.one_hashed@, u.passhash@) {
            None => r is VerifyFailed,
            Some(false) => is_rejection(r),
            Some(true) => r is HashFailed || (r matches SessionLoginStep::Insert { session, access_token }
                && is_access_token(access_token@)
                && is_fresh_session(session, access_token@, u.id)
                && session.hashed_access_token@ != access_token@),
        },
{
    match user {
        None => SessionLoginStep::Reject(String::from_str(INVALID_LOGIN)),
        Some(user) => {
            match bcrypt_check(attr.one_hashed.as_str(), user.passhash.as_str()) {
                None => SessionLoginStep::VerifyFailed,
                Some(false) => SessionLoginStep::Reject(String::from_str(INVALID_LOGIN)),
                Some(true) => {
                    let access_token = random_alphanumeric(ACCESS_TOKEN_LENGTH);
                    proof {
                        lemma_alphanumeric_has_no_nul(access_token@);
                    }
                    let hashed = bcrypt_hash(access_token.as_str(), BCRYPT_COST);
                    sessions_login_token_hashed(user.id, access_token, hashed)
                },
            }
        },
    }
}

/// A string of `A-Z`, `a-z`, `0-9` holds no NUL.
proof fn lemma_alphanumeric_has_no_nul(t: Seq<char>)
    requires
        forall|i: int| 0 <= i < t.len() ==> #[trigger] is_alphanumeric_ascii(t[i]),
    ensures
        !t.contains('\0'),
{
    if t.contains('\0') {
        let i = choose|i: int| 0 <= i < t.len() && t[i] == '\0';
        assert(is_alphanumeric_ascii(t[i]));
    }
}

/// Continues a login once the new access token was hashed (`None` where
/// hashing failed): the session row to store holds the hash, the user, and the
/// current time.
pub fn sessions_login_token_hashed(user_id: i32, access_token: String, hashed: Option<String>) -> (r: SessionLoginStep)
    ensures
        hashed is None ==> r is HashFailed,
        hashed matches Some(h) ==> r matches SessionLoginStep::Insert { session, access_token: t }
            && t == access_token
            && session.user_id == user_id
            && session.hashed_access_token == h
            && is_clock_reading(session.created_at)
            && is_clock_reading(session.last_accessed_at)
            && session.accessed_by_client_ip is None,
{
    match hashed {
        None => SessionLoginStep::HashFailed,
        Some(hashed_access_token) => SessionLoginStep::Insert {
            session: NewSession {
                user_id,
                hashed_access_token,
                created_at: utc_now(),
                last_accessed_at: utc_now(),
                accessed_by_client_ip: None,
            },
            access_token,
        },
    }
}

/// Seconds until a session cookie expires.
pub open spec fn session_seconds() -> int {
    SESSION_DAYS * SECONDS_PER_DAY
}

/// The cookie's contents for the stored session `created`, made at `now`:
/// it expires `SESSION_DAYS` days later.
pub fn session_auth_at(created: &SessionRecord, access_token: String, now: Timestamp) -> (r: SessionAuth)
    requires
        now.secs + session_seconds() <= i64::MAX,
    ensures
        r.exp == now.secs + session_seconds(),
        r.session_id == created.id as i64,
        r.access_token == access_token,
{
    SessionAuth {
        exp: now.secs + SESSION_DAYS * SECONDS_PER_DAY,
        session_id: created.id as i64,
        access_token,
    }
}

/// Finishes a login once the session row was stored: the cookie's contents,
/// expiring `SESSION_DAYS` days from now.
pub fn sessions_login_created(created: &SessionRecord, access_token: String) -> (r: SessionAuth)
    ensures
        r.session_id == created.id as i64,
        r.access_token == access_token,
        exists|now: Timestamp| is_clock_reading(now) && r.exp == now.secs + session_seconds(),
{
    let now = utc_now();
    session_auth_at(created, access_token, now)
}

/// The user whose sessions a logout removes: the request's user, if any.
pub fn sessions_logout_target(su: &SessionUser) -> (r: Option<i32>)
    ensures
        r == (match su.user {
            Some(u) => Some(u.id),
            None => None::<i32>,
        }),
{
    match &su.user {
        Some(user) => Some(user.id),
        None => None,
    }
}

} // verus!
