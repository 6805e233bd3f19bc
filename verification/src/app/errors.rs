use vstd::prelude::*;

verus! {

/// Errors that a request handler answers with.
#[derive(Debug, Clone, Copy, PartialEq, Eq, Structural)]
pub enum ServiceError {
    /// Something failed on the server side (HTTP 500).
    InternalServerError,
    /// The caller could not be authenticated (HTTP 401).
    Unauthorized,
}

} // verus!
