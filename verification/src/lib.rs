//! Paperside API: the request logic of a small reference-sharing service.
//!
//! The HTTP servers, the database and the cookie handling live in the program
//! around this library; what is decided between those edges lives here, with
//! its contracts.
pub mod app;
