//! The login bodies and responses of the organization-based surface.

use crate::okta::OktaEmbedded;
use vstd::prelude::*;

verus! {

/// The body of one login request.
#[derive(Debug, Clone, PartialEq)]
pub struct LoginRequest {
    pub username: Option<String>,
    pub password: Option<String>,
    pub relay_state: Option<String>,
    pub state_token: Option<String>,
}

impl LoginRequest {
    /// A first login: username and password.
    pub fn from_credentials(username: String, password: String) -> (r: LoginRequest)
        ensures
            r.username == Some(username),
            r.password == Some(password),
            r.relay_state is None,
            r.state_token is None,
    {
        LoginRequest {
            username: Some(username),
            password: Some(password),
            relay_state: None,
            state_token: None,
        }
    }

    /// A re-login within a session: only the state token.
    pub fn from_state_token(token: String) -> (r: LoginRequest)
        ensures
            r.username is None,
            r.password is None,
            r.relay_state is None,
            r.state_token == Some(token),
    {
        LoginRequest { username: None, password: None, relay_state: None, state_token: Some(token) }
    }
}

/// One step's answer from the login endpoint.
#[derive(Debug, Clone, PartialEq)]
pub struct LoginResponse {
    pub state_token: Option<String>,
    pub session_token: Option<String>,
    pub expires_at: Option<String>,
    pub status: OktaLoginState,
    pub relay_state: Option<String>,
    pub embedded: Option<OktaEmbedded>,
}

/// The protocol states of a login response.
#[derive(Debug, Clone, Copy, PartialEq, Eq, Structural)]
pub enum OktaLoginState {
    Unauthenticated,
    PasswordWarn,
    PasswordExpired,
    Recovery,
    RecoveryChallenge,
    PasswordReset,
    LockedOut,
    MfaEnroll,
    MfaEnrollActivate,
    MfaRequired,
    MfaChallenge,
    Success,
}

} // verus!
