//! Exchanging a session token for a session, on the organization-based
//! surface.

use vstd::prelude::*;

verus! {

/// The body that trades a session token for a session.
#[derive(Debug, Clone, PartialEq)]
pub struct SessionRequest {
    pub session_token: Option<String>,
}

impl SessionRequest {
    /// A request for the given session token.
    pub fn new(session_token: String) -> (r: SessionRequest)
        ensures
            r.session_token == Some(session_token),
    {
        SessionRequest { session_token: Some(session_token) }
    }
}

/// What the session endpoint answers: the session's identifier.
#[derive(Debug, Clone, PartialEq)]
pub struct SessionResponse {
    pub id: String,
}

/// Extra fields a session request may ask the server to include.
#[derive(Debug, Clone, Copy, PartialEq, Eq, Hash, Structural)]
pub enum SessionProperties {
    CookieToken,
    CookieTokenUrl,
}

impl SessionProperties {
    /// The field's name on the wire.
    pub fn name_text(&self) -> (r: &'static str)
        ensures
            *self is CookieToken ==> r@ == "cookieToken"@,
            *self is CookieTokenUrl ==> r@ == "cookieTokenUrl"@,
    {
        match self {
            SessionProperties::CookieToken => "cookieToken",
            SessionProperties::CookieTokenUrl => "cookieTokenUrl",
        }
    }
}

} // verus!
