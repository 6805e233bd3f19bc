use vstd::prelude::*;

use crate::app::models::timestamp::{Timestamp, utc_now, is_clock_reading};
use crate::app::models::user::User;
use crate::app::security::{random_token, is_session_token};

verus! {

/// Session record keyed by its access token.
#[derive(Debug, Clone)]
pub struct Session {
    pub token: String,
    pub user_id: i32,
    pub created_at: Timestamp,
    pub last_accessed_at: Timestamp,
    pub accessed_by_client_ip: Option<String>,
}

impl Session {
    /// Generates a new Session record for the user, with a fresh random token.
    pub fn create(user_id: i32) -> (s: Session)
        ensures
            s.user_id == user_id,
            is_session_token(s.token@),
            is_clock_reading(s.created_at),
            is_clock_reading(s.last_accessed_at),
            s.accessed_by_client_ip is None,
    {
        let token = match random_token() {
            Ok(t) => t,
            Err(_) => {
                proof {
                    assert(false);
                }
                String::new()
            },
        };
        Session {
            token,
            user_id,
            created_at: utc_now(),
            last_accessed_at: utc_now(),
            accessed_by_client_ip: None,
        }
    }
}

/// Session row keyed by its id, holding a hash of its access token.
#[derive(Debug, Clone)]
pub struct SessionRecord {
    pub id: i32,
    pub user_id: i32,
    pub hashed_access_token: String,
    pub created_at: Timestamp,
    pub last_accessed_at: Timestamp,
    pub accessed_by_client_ip: Option<String>,
}

/// Fields of a session row to insert.
#[derive(Debug, Clone)]
pub struct NewSession {
    pub user_id: i32,
    pub hashed_access_token: String,
    pub created_at: Timestamp,
    pub last_accessed_at: Timestamp,
    pub accessed_by_client_ip: Option<String>,
}

/// What the session cookie carries: when it expires (Unix seconds), which
/// session row it belongs to, and the access token in the clear.
#[derive(Debug, Clone)]
pub struct SessionAuth {
    pub exp: i64,
    pub session_id: i64,
    pub access_token: String,
}

/// The session state of a request: the cookie's contents and the user they
/// authenticate, both present or both absent.
#[derive(Debug, Clone)]
pub struct SessionUser {
    pub auth: Option<SessionAuth>,
    pub user: Option<User>,
}

} // verus!
