use vstd::prelude::*;

use crate::app::controllers::auth_controller::{
    AuthRequestData, LoginStep, creates_session_for, query_login_users_found_spec,
};
use crate::app::greeting;
use crate::app::models::session::SessionUser;
use crate::app::controllers::reference_items_controller::{
    CreateItemStep, ReferenceItemData, create_item_existing_found_spec, create_item_start_spec,
    submit_step,
};
use crate::app::controllers::registrations_controller::{NewRegistrationRequest, is_registered_record};
use crate::app::controllers::sessions_controller::{NewSessionRequest, is_fresh_session, session_seconds};
use crate::app::models::user::NewUser;
use crate::app::security::bcrypt_check_spec;
use crate::app::errors::ServiceError;
use crate::app::fairings::session_user::{SessionAccess, is_unexpired, session_access_spec};
use crate::app::middleware::session_user::{
    SessionUserStep, session_user_start_spec, session_user_sessions_found_spec,
    session_user_users_found_spec,
};
use crate::app::models::reference_item::ReferenceItem;
use crate::app::models::session::{NewSession, Session, SessionAuth, SessionRecord};
use crate::app::models::timestamp::Timestamp;
use crate::app::models::user::{User, slim_user_of};

verus! {

// ---------------------------------------------------------------------------
// The stored tables, as the queries of the handlers read them.
// ---------------------------------------------------------------------------

/// The sessions stored under `token`, in table order (`WHERE token = ..`).
pub open spec fn sessions_with_token(table: Seq<Session>, token: Seq<char>) -> Seq<Session>
    decreases table.len(),
{
    if table.len() == 0 {
        table
    } else {
        let rest = sessions_with_token(table.drop_last(), token);
        if table.last().token@ == token {
            rest.push(table.last())
        } else {
            rest
        }
    }
}

/// The table after deleting the sessions stored under `token`.
pub open spec fn sessions_without_token(table: Seq<Session>, token: Seq<char>) -> Seq<Session>
    decreases table.len(),
{
    if table.len() == 0 {
        table
    } else {
        let rest = sessions_without_token(table.drop_last(), token);
        if table.last().token@ == token {
            rest
        } else {
            rest.push(table.last())
        }
    }
}

/// The users with id `id`, in table order (`WHERE id = ..`).
pub open spec fn users_with_id(table: Seq<User>, id: i32) -> Seq<User>
    decreases table.len(),
{
    if table.len() == 0 {
        table
    } else {
        let rest = users_with_id(table.drop_last(), id);
        if table.last().id == id {
            rest.push(table.last())
        } else {
            rest
        }
    }
}

/// No stored session has this token (tokens key the sessions table).
pub open spec fn token_is_new(table: Seq<Session>, token: Seq<char>) -> bool {
    forall|i: int| 0 <= i < table.len() ==> (#[trigger] table[i]).token@ != token
}

/// `user` is stored, and no other user has its id (ids key the users table).
pub open spec fn user_is_stored(table: Seq<User>, user: User) -> bool {
    &&& table.contains(user)
    &&& forall|i: int| 0 <= i < table.len() && (#[trigger] table[i]).id == user.id ==> table[i] == user
}

proof fn lemma_no_session_with_new_token(table: Seq<Session>, token: Seq<char>)
    requires
        token_is_new(table, token),
    ensures
        sessions_with_token(table, token).len() == 0,
    decreases table.len(),
{
    if table.len() > 0 {
        lemma_no_session_with_new_token(table.drop_last(), token);
    }
}

proof fn lemma_deleted_token_is_new(table: Seq<Session>, token: Seq<char>)
    ensures
        token_is_new(sessions_without_token(table, token), token),
    decreases table.len(),
{
    if table.len() > 0 {
        lemma_deleted_token_is_new(table.drop_last(), token);
        let rest = sessions_without_token(table.drop_last(), token);
        if table.last().token@ != token {
            assert forall|i: int| 0 <= i < rest.push(table.last()).len() implies
                (#[trigger] rest.push(table.last())[i]).token@ != token by {
                if i < rest.len() {
                    assert(rest.push(table.last())[i] == rest[i]);
                }
            }
        }
    }
}

proof fn lemma_users_with_id_of_stored(table: Seq<User>, user: User)
    requires
        forall|i: int| 0 <= i < table.len() && (#[trigger] table[i]).id == user.id ==> table[i] == user,
    ensures
        users_with_id(table, user.id).len() > 0 <==> table.contains(user),
        users_with_id(table, user.id).len() > 0 ==> users_with_id(table, user.id).last() == user,
    decreases table.len(),
{
    if table.len() > 0 {
        let init = table.drop_last();
        assert forall|i: int| 0 <= i < init.len() && (#[trigger] init[i]).id == user.id implies init[i] == user by {
            assert(init[i] == table[i]);
        }
        lemma_users_with_id_of_stored(init, user);
        if table.last().id == user.id {
            assert(table[table.len() - 1] == user);
            assert(table.contains(user));
        } else {
            if table.contains(user) {
                let k = choose|k: int| 0 <= k < table.len() && table[k] == user;
                assert(k != table.len() - 1);
                assert(init[k] == user);
                assert(init.contains(user));
            }
            if init.contains(user) {
                let k = choose|k: int| 0 <= k < init.len() && init[k] == user;
                assert(table[k] == user);
            }
        }
    }
}

// ---------------------------------------------------------------------------
// Laws
// ---------------------------------------------------------------------------

/// A login that creates session `s` for `user` authenticates later requests
/// carrying `s`'s token: once the session is stored (its token being new to
/// the table) and the user is stored, the session-user extractor finds the
/// session, then the user, and answers with the user's slim record.
pub proof fn lemma_login_session_authenticates(
    sessions: Seq<Session>,
    users: Seq<User>,
    user: User,
    s: Session,
)
    requires
        creates_session_for(LoginStep::CreateSession(s), user.id),
        token_is_new(sessions, s.token@),
        user_is_stored(users, user),
    ensures
        session_user_start_spec(Some(s.token)) == (SessionUserStep::FindSessions { token: s.token }),
        session_user_sessions_found_spec(s.token, sessions_with_token(sessions.push(s), s.token@))
            == (SessionUserStep::FindUser { token: s.token, user_id: user.id }),
        session_user_users_found_spec(s.token, users_with_id(users, user.id))
            == (SessionUserStep::Touch { token: s.token, user: slim_user_of(user) }),
{
    lemma_no_session_with_new_token(sessions, s.token@);
    assert(sessions.push(s).drop_last() == sessions);
    assert(sessions_with_token(sessions.push(s), s.token@) == sessions_with_token(sessions, s.token@).push(s));
    lemma_users_with_id_of_stored(users, user);
}

/// After a logout deleted the sessions stored under `token`, a request
/// carrying that token is unauthorized; so is one without any identity.
pub proof fn lemma_logout_ends_session(sessions: Seq<Session>, token: String)
    ensures
        session_user_sessions_found_spec(token, sessions_with_token(sessions_without_token(sessions, token@), token@))
            == SessionUserStep::Fail(ServiceError::Unauthorized),
        session_user_start_spec(None) == SessionUserStep::Fail(ServiceError::Unauthorized),
{
    lemma_deleted_token_is_new(sessions, token@);
    lemma_no_session_with_new_token(sessions_without_token(sessions, token@), token@);
}

/// The cookie handed out at login opens the session it was made for: where
/// the stored row keeps the inserted hash and user, the cookie's access token
/// verifies against it, the cookie's session id names the row, and the check
/// yields the logged-in user.
pub proof fn lemma_login_cookie_grants_access(
    session: NewSession,
    access_token: String,
    user_id: i32,
    row: SessionRecord,
    auth: SessionAuth,
)
    requires
        is_fresh_session(session, access_token@, user_id),
        row.user_id == session.user_id,
        row.hashed_access_token == session.hashed_access_token,
        auth.session_id == row.id as i64,
        auth.access_token == access_token,
    ensures
        session_access_spec(auth.access_token@, Some(row)) == SessionAccess::FindUser(user_id),
        auth.session_id as i32 == row.id,
        session_access_spec(auth.access_token@, None) == SessionAccess::Deny,
{
}

/// The cookie made at login time `made` is valid at every time from then up
/// to `SESSION_DAYS` days later, and at no time after that.
pub proof fn lemma_cookie_valid_for_session_days(auth: SessionAuth, made: Timestamp, now: Timestamp)
    requires
        auth.exp == made.secs + session_seconds(),
    ensures
        made.secs <= now.secs <= made.secs + session_seconds() ==> is_unexpired(auth, now),
        now.secs > made.secs + session_seconds() ==> !is_unexpired(auth, now),
{
}

/// Creating a reference item records one submission, by the requesting user,
/// of the very item whose details are answered, with the requested
/// visibility; an item already stored under the url is reused rather than
/// stored again.
pub proof fn lemma_create_item_submits_answered_item(
    data: ReferenceItemData,
    user_id: i32,
    item: ReferenceItem,
)
    ensures
        submit_step(data, user_id, item) matches CreateItemStep::InsertSubmission { submission, details }
            && submission.reference_item_id == details.id
            && details.id == item.id
            && submission.submitting_user_id == user_id
            && submission.is_public == data.is_public
            && details.is_public == data.is_public
            && details.title == item.title
            && details.url == item.url,
        create_item_existing_found_spec(data, user_id, Some(item)) == submit_step(data, user_id, item),
        data.url is Some ==> create_item_start_spec(data) is FindByUrl,
{
}

/// An account registered with a pre-hashed password logs in with that same
/// pre-hashed password: where the stored user keeps the registered hash, the
/// login's password check against it succeeds.
pub proof fn lemma_registered_user_can_log_in(
    attr: NewRegistrationRequest,
    row: NewUser,
    user: User,
    login: NewSessionRequest,
)
    requires
        is_registered_record(attr, row),
        user.passhash == row.passhash,
        login.one_hashed@ == attr.one_hashed@,
    ensures
        bcrypt_check_spec(login.one_hashed@, user.passhash@) == Some(true),
{
}

/// An item that no stored item matches by url is stored as the request
/// describes it: with the requested title and url (none where the request has
/// none). Its stored row is then answered with that same title and url.
pub proof fn lemma_new_item_is_the_requested_one(
    data: ReferenceItemData,
    user_id: i32,
    inserted: ReferenceItem,
)
    ensures
        create_item_existing_found_spec(data, user_id, None) matches CreateItemStep::InsertItem(n)
            && n.title == data.title && n.url == data.url,
        data.url is None ==> (create_item_start_spec(data) matches CreateItemStep::InsertItem(n)
            && n.title == data.title && n.url is None),
        data.url matches Some(u) ==> create_item_start_spec(data) == CreateItemStep::FindByUrl(u),
        inserted.title == data.title && inserted.url == data.url ==>
            (submit_step(data, user_id, inserted) matches CreateItemStep::InsertSubmission { details, .. }
                && details.title == data.title && details.url == data.url),
{
}

/// A login checks the requested password against the stored hash of the last
/// stored user with the requested name, that user being handed over
/// unchanged; with no such user it is unauthorized.
pub proof fn lemma_login_checks_stored_user(auth_data: AuthRequestData, rows: Seq<User>)
    ensures
        rows.len() > 0 ==> (query_login_users_found_spec(auth_data, rows)
            matches LoginStep::VerifyPassword { user, password }
            && user == rows[rows.len() - 1]
            && rows.contains(user)
            && user.passhash == rows[rows.len() - 1].passhash
            && user.name == rows[rows.len() - 1].name
            && password == auth_data.password),
        rows.len() == 0 ==> query_login_users_found_spec(auth_data, rows)
            == LoginStep::Fail(ServiceError::Unauthorized),
{
    if rows.len() > 0 {
        assert(rows[rows.len() - 1] == rows.last());
    }
}

/// The greeting of a request with a session user names that user, whatever
/// the name: `Hello, `, the name, `!`; only a request without a user is
/// greeted as the world.
pub proof fn lemma_greeting_names_user(su: SessionUser)
    ensures
        su.user matches Some(u) ==> greeting(su) == "Hello, "@ + u.name@ + "!"@,
        su.user matches Some(u) ==> greeting(su).len() == u.name@.len() + 8
            && greeting(su).subrange(7, 7 + u.name@.len() as int) == u.name@
            && greeting(su).last() == '!',
        su.user is None ==> greeting(su) == "Hello, world!"@,
{
    reveal_strlit("Hello, ");
    reveal_strlit("!");
    if let Some(u) = su.user {
        assert(greeting(su).subrange(7, 7 + u.name@.len() as int) =~= u.name@);
    }
}

} // verus!
