//! Core of a small ticket-tracking HTTP service: a structural token codec,
//! per-request authentication context resolution, a route guard, a typed
//! context extractor, an in-memory ticket store, and a response mapper that
//! turns internal errors into a stable client-facing envelope.
//!
//! Every function here carries a contract checked by Verus; the HTTP plumbing
//! around it lives outside this library.

pub mod ctx;
pub mod error;
pub mod login;
pub mod mapper;
pub mod model;
pub mod mw_auth;
pub mod token;
