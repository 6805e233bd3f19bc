use vstd::prelude::*;

verus! {

/// HTTP methods that the routes answer.
#[derive(Debug, Clone, Copy, PartialEq, Eq, Structural)]
pub enum Method {
    Get,
    Post,
    Put,
    Delete,
}

/// The request handlers of the service.
#[derive(Debug, Clone, Copy, PartialEq, Eq, Structural)]
pub enum Handler {
    /// Greets the session user.
    Index,
    /// Logs in with a pre-hashed password (session row and cookie).
    SessionsLogin,
    /// Logs out (all sessions of the user, and the cookie).
    SessionsLogout,
    /// Registers an account with a pre-hashed password.
    RegistrationsRegister,
    /// Lists the reference items with their authors.
    ListReferenceItems,
    /// Stores a new reference item.
    CreateReferenceItem,
    /// Reads one reference item with its authors.
    ReadReferenceItem,
    /// Replaces one reference item.
    UpdateReferenceItem,
    /// Deletes one reference item.
    DeleteReferenceItem,
    /// Registers an account (identity service).
    RegisterUser,
    /// Logs in (identity service).
    Login,
    /// Logs out (identity service).
    Logout,
    /// Answers with the session user (identity service).
    GetMe,
}

/// One route: a method and a path under the base it is mounted at.
#[derive(Debug, Clone, Copy)]
pub struct Route {
    pub base: &'static str,
    pub method: Method,
    pub path: &'static str,
    pub handler: Handler,
}

/// Builds a route.
pub(crate) fn route(base: &'static str, method: Method, path: &'static str, handler: Handler) -> (r: Route)
    ensures
        r.base@ == base@,
        r.method == method,
        r.path@ == path@,
        r.handler == handler,
{
    Route { base, method, path, handler }
}

/// The route `method base path -> handler`, compared by its text.
pub open spec fn is_route(r: Route, base: Seq<char>, method: Method, path: Seq<char>, handler: Handler) -> bool {
    &&& r.base@ == base
    &&& r.method == method
    &&& r.path@ == path
    &&& r.handler == handler
}

/// The routes of the identity-service application: registration, and login,
/// logout and the current user under `/auth`.
pub fn build_routes() -> (r: Vec<Route>)
    ensures
        r@.len() == 4,
        is_route(r@[0], "/register"@, Method::Post, ""@, Handler::RegisterUser),
        is_route(r@[1], "/auth"@, Method::Post, ""@, Handler::Login),
        is_route(r@[2], "/auth"@, Method::Delete, ""@, Handler::Logout),
        is_route(r@[3], "/auth"@, Method::Get, ""@, Handler::GetMe),
{
    let mut r: Vec<Route> = Vec::new();
    r.push(route("/register", Method::Post, "", Handler::RegisterUser));
    r.push(route("/auth", Method::Post, "", Handler::Login));
    r.push(route("/auth", Method::Delete, "", Handler::Logout));
    r.push(route("/auth", Method::Get, "", Handler::GetMe));
    r
}

} // verus!
