use paperside_api::app::controllers::auth_controller::{
    query_login_password_checked, query_login_users_found, AuthRequestData, LoginStep,
};
use paperside_api::app::errors::ServiceError;
use paperside_api::app::middleware::session_user::{
    query_session_user, session_user_sessions_found, session_user_start, session_user_users_found,
    SessionUserStep,
};
use paperside_api::app::models::session::Session;
use paperside_api::app::models::timestamp::Timestamp;
use paperside_api::app::models::user::User;

fn test_user() -> User {
    User {
        id: 7,
        name: "test_user".to_string(),
        passhash: "$argon2id$v=19$m=4096,t=192,p=4$c29tZXNhbHQ$aGFzaA".to_string(),
        created_at: Timestamp { secs: 1_600_000_000, nanos: 0 },
    }
}

fn test_auth_data(password: &str) -> AuthRequestData {
    AuthRequestData { name: "test_user".to_string(), password: password.to_string() }
}

/// Runs a login for `test_user` whose password check gave `verification`.
fn login(verification: Result<bool, ServiceError>) -> LoginStep {
    let auth_data = test_auth_data("test_user");
    match query_login_users_found(auth_data, vec![test_user()]) {
        LoginStep::VerifyPassword { user, password } => {
            assert_eq!(password, "test_user");
            query_login_password_checked(user, verification)
        }
        other => other,
    }
}

/// Runs the session-user extractor against the stored tables.
fn get_me(identity: Option<String>, sessions: &[Session], users: &[User]) -> Result<String, ServiceError> {
    match session_user_start(identity) {
        SessionUserStep::FindSessions { token } => {
            let rows: Vec<Session> = sessions.iter().filter(|s| s.token == token).cloned().collect();
            match session_user_sessions_found(token, rows) {
                SessionUserStep::FindUser { token, user_id } => {
                    let rows: Vec<User> = users.iter().filter(|u| u.id == user_id).cloned().collect();
                    match session_user_users_found(token, rows) {
                        SessionUserStep::Touch { user, .. } => Ok(user.name),
                        SessionUserStep::Fail(e) => Err(e),
                        other => panic!("unexpected step {:?}", other),
                    }
                }
                SessionUserStep::Fail(e) => Err(e),
                other => panic!("unexpected step {:?}", other),
            }
        }
        SessionUserStep::Fail(e) => Err(e),
        other => panic!("unexpected step {:?}", other),
    }
}

#[test]
fn test_unauthorized_get_me() {
    assert_eq!(get_me(None, &[], &[test_user()]), Err(ServiceError::Unauthorized));
}

#[test]
fn test_login_and_get_me() {
    let session = match login(Ok(true)) {
        LoginStep::CreateSession(s) => s,
        other => panic!("expected a session, got {:?}", other),
    };
    assert_eq!(session.user_id, 7);
    let sessions = vec![session.clone()];
    let name = get_me(Some(session.token.clone()), &sessions, &[test_user()]).expect("get me");
    assert_eq!(name, "test_user");
}

#[test]
fn test_login_logout_and_get_me() {
    let session = match login(Ok(true)) {
        LoginStep::CreateSession(s) => s,
        other => panic!("expected a session, got {:?}", other),
    };
    let token = session.token.clone();
    // logout deletes the sessions stored under the identity token
    let mut sessions = vec![session];
    sessions.retain(|s| s.token != token);
    assert_eq!(get_me(Some(token), &sessions, &[test_user()]), Err(ServiceError::Unauthorized));
}

#[test]
fn test_bad_login() {
    assert!(matches!(login(Ok(false)), LoginStep::Fail(ServiceError::Unauthorized)));
}

#[test]
fn login_with_unreadable_hash_is_unauthorized() {
    assert!(matches!(
        login(Err(ServiceError::Unauthorized)),
        LoginStep::Fail(ServiceError::Unauthorized)
    ));
}

#[test]
fn login_of_unknown_user_is_unauthorized() {
    let step = query_login_users_found(test_auth_data("test_user"), vec![]);
    assert!(matches!(step, LoginStep::Fail(ServiceError::Unauthorized)));
}

#[test]
fn login_checks_the_last_user_found() {
    let mut first = test_user();
    first.id = 1;
    let step = query_login_users_found(test_auth_data("pw"), vec![first, test_user()]);
    match step {
        LoginStep::VerifyPassword { user, password } => {
            assert_eq!(user.id, 7);
            assert_eq!(password, "pw");
        }
        other => panic!("unexpected step {:?}", other),
    }
}

#[test]
fn login_session_token_is_url_safe() {
    let session = match login(Ok(true)) {
        LoginStep::CreateSession(s) => s,
        other => panic!("expected a session, got {:?}", other),
    };
    assert_eq!(session.token.chars().count(), 32);
    assert!(session
        .token
        .chars()
        .all(|c| c.is_ascii_alphanumeric() || c == '_' || c == '-'));
    assert!(session.accessed_by_client_ip.is_none());
    assert!(session.created_at.secs > 1_500_000_000);
    assert!(session.created_at.nanos < 1_000_000_000);
}

#[test]
fn session_without_user_is_unauthorized() {
    let session = Session::create(99);
    let sessions = vec![session.clone()];
    assert_eq!(
        get_me(Some(session.token), &sessions, &[test_user()]),
        Err(ServiceError::Unauthorized)
    );
}

#[test]
fn query_session_user_slims_the_last_user() {
    let mut other = test_user();
    other.name = "other".to_string();
    let slim = query_session_user(vec![other, test_user()]).expect("user");
    assert_eq!(slim.id, 7);
    assert_eq!(slim.name, "test_user");
    assert!(matches!(query_session_user(vec![]), Err(ServiceError::Unauthorized)));
}
