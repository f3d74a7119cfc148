//! A federated-identity credential broker library.
//!
//! Given identity-provider credentials the broker completes a multi-factor
//! login challenge, parses a signed SAML assertion into candidate cloud
//! roles, exchanges the assertion for short-lived cloud credentials and
//! caches them until they expire. The data model, the authentication state
//! machine, the assertion codec, the role selector and the credential cache
//! are verified; network transport, prompt rendering and file handling live
//! with the callers.

pub mod aws;
pub mod cli;
pub mod config;
pub mod credentials;
pub mod providers;
pub mod saml;
pub mod errors;
pub mod okta;
pub mod text;
pub mod utils;
