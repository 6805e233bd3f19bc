use paperside_api::app::config::TOKEN_LENGTH;
use paperside_api::app::controllers::registrations_controller::{query_create_user_record, RegistrationData};
use paperside_api::app::errors::ServiceError;
use paperside_api::app::index;
use paperside_api::app::models::session::{Session, SessionUser};
use paperside_api::app::models::user::{NewUser, SlimUser, User};
use paperside_api::app::models::timestamp::Timestamp;
use paperside_api::app::routes::{build_routes, Handler, Method};
use paperside_api::app::rocket;
use paperside_api::app::security::{
    random_alphanumeric, random_token, token_from_indices, url_base64_charset_char,
};

#[test]
fn hello_world() {
    let su = SessionUser { auth: None, user: None };
    assert_eq!(index(su), "Hello, world!".to_string());
}

#[test]
fn greeting_names_the_user() {
    let user = User {
        id: 1,
        name: "Ada".to_string(),
        passhash: String::new(),
        created_at: Timestamp { secs: 0, nanos: 0 },
    };
    let su = SessionUser { auth: None, user: Some(user) };
    assert_eq!(index(su), "Hello, Ada!");
}

#[test]
fn random_token_is_url_safe() {
    let a = random_token().expect("token");
    let b = random_token().expect("token");
    assert_eq!(a.chars().count(), TOKEN_LENGTH);
    assert!(a.chars().all(|c| c.is_ascii_alphanumeric() || c == '_' || c == '-'));
    // 64^32 tokens: two draws do not meet
    assert_ne!(a, b);
}

#[test]
fn charset_is_url_safe_base64() {
    let all: String = (0..64).map(url_base64_charset_char).collect();
    assert_eq!(all, "ABCDEFGHIJKLMNOPQRSTUVWXYZabcdefghijklmnopqrstuvwxyz0123456789_-");
}

#[test]
fn alphanumeric_tokens() {
    let t = random_alphanumeric(32);
    assert_eq!(t.chars().count(), 32);
    assert!(t.chars().all(|c| c.is_ascii_alphanumeric()));
    assert_ne!(t, random_alphanumeric(32));
    assert_eq!(random_alphanumeric(0), "");
}

#[test]
fn sessions_get_distinct_tokens() {
    let a = Session::create(4);
    let b = Session::create(4);
    assert_eq!(a.user_id, 4);
    assert_ne!(a.token, b.token);
}

#[test]
fn registration_builds_user_row() {
    let data = RegistrationData { username: "newbie".to_string(), password: "pw".to_string() };
    let row: NewUser = query_create_user_record(data.username.clone(), Ok("$hash".to_string())).expect("row");
    assert_eq!(row.name, "newbie");
    assert_eq!(row.passhash, "$hash");
    assert!(row.created_at.secs > 1_500_000_000);
    assert!(matches!(
        query_create_user_record(data.username, Err(ServiceError::InternalServerError)),
        Err(ServiceError::InternalServerError)
    ));
}

#[test]
fn new_user_from_details() {
    let row = NewUser::from_details("x".to_string(), "y".to_string());
    assert_eq!(row.name, "x");
    assert_eq!(row.passhash, "y");
}

#[test]
fn slim_user_keeps_id_and_name() {
    let user = User {
        id: 8,
        name: "slim".to_string(),
        passhash: "secret".to_string(),
        created_at: Timestamp { secs: 1, nanos: 2 },
    };
    let slim = SlimUser::from(user);
    assert_eq!(slim.id, 8);
    assert_eq!(slim.name, "slim");
}

#[test]
fn identity_service_routes() {
    let routes = build_routes();
    assert_eq!(routes.len(), 4);
    assert_eq!(routes[0].base, "/register");
    assert_eq!(routes[0].method, Method::Post);
    assert_eq!(routes[0].handler, Handler::RegisterUser);
    assert_eq!(routes[3].base, "/auth");
    assert_eq!(routes[3].method, Method::Get);
    assert_eq!(routes[3].handler, Handler::GetMe);
}

#[test]
fn cookie_session_routes() {
    let routes = rocket();
    assert_eq!(routes.len(), 9);
    assert_eq!(routes[0].base, "/");
    assert_eq!(routes[0].path, "/");
    assert_eq!(routes[0].handler, Handler::Index);
    assert_eq!(routes[1].path, "/login");
    assert_eq!(routes[3].path, "/register");
    assert_eq!(routes[3].method, Method::Post);
    assert_eq!(routes[3].handler, Handler::RegistrationsRegister);
    assert_eq!(routes[6].base, "/reference_items");
    assert_eq!(routes[6].path, "/<reference_item_id>");
    assert_eq!(routes[8].method, Method::Delete);
    assert_eq!(routes[8].handler, Handler::DeleteReferenceItem);
}

#[test]
fn token_from_indices_spells_the_alphabet() {
    assert_eq!(token_from_indices(&vec![0, 25, 26, 51, 52, 61, 62, 63]), "AZaz09_-");
    assert_eq!(token_from_indices(&vec![]), "");
}
