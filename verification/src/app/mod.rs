use vstd::prelude::*;

use crate::app::models::session::SessionUser;
use crate::app::routes::{Route, Method, Handler, is_route, route};

pub mod config;
pub mod controllers;
pub mod errors;
pub mod fairings;
pub mod middleware;
pub mod models;
pub mod proofs;
pub mod routes;
pub mod security;

verus! {

/// The greeting of the index route.
pub open spec fn greeting(su: SessionUser) -> Seq<char> {
    match su.user {
        Some(user) => "Hello, "@ + user.name@ + "!"@,
        None => "Hello, world!"@,
    }
}

/// Index route: greets the session user by name, or the world.
pub fn index(su: SessionUser) -> (r: String)
    ensures
        r@ == greeting(su),
        su.user matches Some(u) ==> r@ == "Hello, "@ + u.name@ + "!"@,
        su.user is None ==> r@ == "Hello, world!"@,
{
    match su.user {
        Some(user) => {
            let mut s = String::from_str("Hello, ");
            s.append(user.name.as_str());
            s.append("!");
            s
        },
        None => String::from_str("Hello, world!"),
    }
}

/// The routes that the cookie-session application mounts: the greeting, the
/// sessions and registration at the root, and the reference item resource under
/// `/reference_items`.
pub fn rocket() -> (r: Vec<Route>)
    ensures
        r@.len() == 9,
        is_route(r@[0], "/"@, Method::Get, "/"@, Handler::Index),
        is_route(r@[1], "/"@, Method::Post, "/login"@, Handler::SessionsLogin),
        is_route(r@[2], "/"@, Method::Post, "/logout"@, Handler::SessionsLogout),
        is_route(r@[3], "/"@, Method::Post, "/register"@, Handler::RegistrationsRegister),
        is_route(r@[4], "/reference_items"@, Method::Get, "/"@, Handler::ListReferenceItems),
        is_route(r@[5], "/reference_items"@, Method::Post, "/"@, Handler::CreateReferenceItem),
        is_route(r@[6], "/reference_items"@, Method::Get, "/<reference_item_id>"@, Handler::ReadReferenceItem),
        is_route(r@[7], "/reference_items"@, Method::Put, "/<reference_item_id>"@, Handler::UpdateReferenceItem),
        is_route(r@[8], "/reference_items"@, Method::Delete, "/<reference_item_id>"@, Handler::DeleteReferenceItem),
{
    let mut r: Vec<Route> = Vec::new();
    r.push(route("/", Method::Get, "/", Handler::Index));
    r.push(route("/", Method::Post, "/login", Handler::SessionsLogin));
    r.push(route("/", Method::Post, "/logout", Handler::SessionsLogout));
    r.push(route("/", Method::Post, "/register", Handler::RegistrationsRegister));
    r.push(route("/reference_items", Method::Get, "/", Handler::ListReferenceItems));
    r.push(route("/reference_items", Method::Post, "/", Handler::CreateReferenceItem));
    r.push(route("/reference_items", Method::Get, "/<reference_item_id>", Handler::ReadReferenceItem));
    r.push(route("/reference_items", Method::Put, "/<reference_item_id>", Handler::UpdateReferenceItem));
    r.push(route("/reference_items", Method::Delete, "/<reference_item_id>", Handler::DeleteReferenceItem));
    r
}

} // verus!
