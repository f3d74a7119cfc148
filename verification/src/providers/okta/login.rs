//! The bodies a login step sends: credentials the first time, a state token
//! on re-login.

use vstd::prelude::*;

verus! {

/// The path of the login endpoint under the provider's base URL.
pub const API_AUTHN_PATH: &'static str = "api/v1/authn";

/// The body of one login request.
#[derive(Debug, Clone, PartialEq)]
pub struct LoginRequest {
    pub username: Option<String>,
    pub password: Option<String>,
    pub relay_state: Option<String>,
    pub state_token: Option<String>,
}

impl LoginRequest {
    /// A first login: username and password, nothing else.
    pub fn from_credentials(username: String, password: String) -> (r: LoginRequest)
        ensures
            r.username == Some(username),
            r.password == Some(password),
            r.relay_state is None,
            r.state_token is None,
    {
        LoginRequest {
            username: Some(username),
            password: Some(password),
            relay_state: None,
            state_token: None,
        }
    }

    /// A re-login within a session: only the state token.
    pub fn from_state_token(token: String) -> (r: LoginRequest)
        ensures
            r.username is None,
            r.password is None,
            r.relay_state is None,
            r.state_token == Some(token),
    {
        LoginRequest { username: None, password: None, relay_state: None, state_token: Some(token) }
    }
}

} // verus!
