use vstd::prelude::*;

use crate::app::errors::ServiceError;
use crate::app::models::timestamp::is_clock_reading;
use crate::app::controllers::sessions_controller::BCRYPT_COST;
use crate::app::models::user::NewUser;
use crate::app::security::{bcrypt_hash, bcrypt_verify_spec, contains_nul, is_bcrypt_hash};

verus! {

/// A json request to register a new account.
#[derive(Debug, Clone)]
pub struct RegistrationData {
    pub username: String,
    pub password: String,
}

/// Builds the user row to insert, once the password was hashed; a failed hash
/// is answered with its error.
pub fn query_create_user_record(username: String, hashed: Result<String, ServiceError>) -> (r: Result<NewUser, ServiceError>)
    ensures
        hashed matches Err(e) ==> r == Err::<NewUser, ServiceError>(e),
        hashed matches Ok(h) ==> (r matches Ok(u) && u.name == username && u.passhash == h
            && is_clock_reading(u.created_at)),
{
    match hashed {
        Ok(passhash) => Ok(NewUser::from_details(username, passhash)),
        Err(e) => Err(e),
    }
}

/// Params for registering an account with a password pre-hashed by the client.
#[derive(Debug, Clone)]
pub struct NewRegistrationRequest {
    pub user_name: String,
    /// Password as pre-hashed by the client.
    pub one_hashed: String,
}

/// The user row stored for a registration: the requested name, and a bcrypt
/// hash at `BCRYPT_COST` that verifies the pre-hashed password.
pub open spec fn is_registered_record(attr: NewRegistrationRequest, row: NewUser) -> bool {
    &&& row.name == attr.user_name
    &&& is_bcrypt_hash(row.passhash@, BCRYPT_COST)
    &&& bcrypt_verify_spec(attr.one_hashed@, row.passhash@) == Some(true)
    &&& is_clock_reading(row.created_at)
}

/// What a registration asks for next, or how it answers.
#[derive(Debug, Clone)]
pub enum RegistrationStep {
    /// Store this user row.
    Insert(NewUser),
    /// The pre-hashed password holds a NUL, which bcrypt refuses to hash.
    InvalidPassword,
    /// bcrypt could not hash the password (no random salt).
    HashFailed,
}

/// Continues a registration once the pre-hashed password was hashed again
/// (`None` where hashing failed): the row holds the name, the hash and the
/// current time.
pub fn registration_hashed(user_name: String, hashed: Option<String>) -> (r: RegistrationStep)
    ensures
        hashed is None ==> r is HashFailed,
        hashed matches Some(h) ==> r matches RegistrationStep::Insert(row)
            && row.name == user_name
            && row.passhash == h
            && is_clock_reading(row.created_at),
{
    match hashed {
        None => RegistrationStep::HashFailed,
        Some(passhash) => RegistrationStep::Insert(NewUser::from_details(user_name, passhash)),
    }
}

/// Starts a registration: a pre-hashed password holding a NUL is refused;
/// any other is hashed with bcrypt at `BCRYPT_COST` into the user row.
pub fn registrations_register_record(attr: NewRegistrationRequest) -> (r: RegistrationStep)
    ensures
        attr.one_hashed@.contains('\0') <==> r is InvalidPassword,
        !attr.one_hashed@.contains('\0') ==> (r is HashFailed
            || (r matches RegistrationStep::Insert(row) && is_registered_record(attr, row))),
{
    if contains_nul(attr.one_hashed.as_str()) {
        return RegistrationStep::InvalidPassword;
    }
    let hashed = bcrypt_hash(attr.one_hashed.as_str(), BCRYPT_COST);
    registration_hashed(attr.user_name, hashed)
}

} // verus!
