use vstd::prelude::*;

use vstd::std_specs::convert::FromSpecImpl;

use crate::app::models::timestamp::{Timestamp, utc_now, is_clock_reading};

verus! {

/// User record with all fields.
#[derive(Debug, Clone)]
pub struct User {
    pub id: i32,
    pub name: String,
    pub passhash: String,
    pub created_at: Timestamp,
}

/// User record with only session-pertinent fields.
#[derive(Debug, Clone)]
pub struct SlimUser {
    pub id: i32,
    pub name: String,
}

/// The pertinent fields of a user record.
pub open spec fn slim_user_of(user: User) -> SlimUser {
    SlimUser { id: user.id, name: user.name }
}

impl From<User> for SlimUser {
    /// Picks pertinent fields from a User record.
    fn from(user: User) -> (r: SlimUser) {
        SlimUser { id: user.id, name: user.name }
    }
}

impl FromSpecImpl<User> for SlimUser {
    open spec fn obeys_from_spec() -> bool {
        true
    }

    open spec fn from_spec(user: User) -> SlimUser {
        slim_user_of(user)
    }
}

/// Fields necessary when inserting a new user record.
#[derive(Debug, Clone)]
pub struct NewUser {
    pub name: String,
    pub passhash: String,
    pub created_at: Timestamp,
}

impl NewUser {
    /// Builds a NewUser record from registration data, stamped with the
    /// current time.
    pub fn from_details(name: String, passhash: String) -> (r: NewUser)
        ensures
            r.name == name,
            r.passhash == passhash,
            is_clock_reading(r.created_at),
    {
        NewUser { name, passhash, created_at: utc_now() }
    }
}

} // verus!
