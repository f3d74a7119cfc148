//! The API-based provider adapter's protocol pieces: request shapes,
//! response shapes, factors, and the authentication state machine.

pub mod auth;
pub mod factors;
pub mod login;
pub mod response;
pub mod sessions;
pub mod verification;
