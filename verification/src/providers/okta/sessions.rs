//! Exchanging a session token for a session.

use crate::text::{join_comma, spec_join_comma};
use vstd::prelude::*;
use vstd::string::StringExecFns;

verus! {

/// The body that trades a session token for a session.
#[derive(Debug, Clone, PartialEq)]
pub struct SessionRequest {
    pub session_token: Option<String>,
}

impl SessionRequest {
    /// A request for the given session token.
    pub fn new(session_token: String) -> (r: SessionRequest)
        ensures
            r.session_token == Some(session_token),
    {
        SessionRequest { session_token: Some(session_token) }
    }
}

/// What the session endpoint answers: the session's identifier.
#[derive(Debug, Clone, PartialEq)]
pub struct SessionResponse {
    pub id: String,
}

/// Extra fields a session request may ask the server to include.
#[derive(Debug, Clone, Copy, PartialEq, Eq, Hash, Structural)]
pub enum SessionProperties {
    CookieToken,
    CookieTokenUrl,
}

impl SessionProperties {
    /// The field's name on the wire.
    pub fn name_text(&self) -> (r: &'static str)
        ensures
            *self is CookieToken ==> r@ == "cookieToken"@,
            *self is CookieTokenUrl ==> r@ == "cookieTokenUrl"@,
    {
        match self {
            SessionProperties::CookieToken => "cookieToken",
            SessionProperties::CookieTokenUrl => "cookieTokenUrl",
        }
    }
}

/// The name a session property carries on the wire.
pub open spec fn spec_property_name(p: SessionProperties) -> Seq<char> {
    match p {
        SessionProperties::CookieToken => "cookieToken"@,
        SessionProperties::CookieTokenUrl => "cookieTokenUrl"@,
    }
}

/// The path a session is created at, with the requested extra fields named
/// in its query, comma-joined in the given order.
pub fn sessions_path(additional_fields: &Vec<SessionProperties>) -> (r: String)
    ensures
        r@ == "api/v1/sessions?additionalFields="@ + spec_join_comma(
            additional_fields@.map_values(|p: SessionProperties| spec_property_name(p)),
        ),
{
    let n = additional_fields.len();
    let mut names: Vec<String> = Vec::new();
    let mut i: usize = 0;
    proof {
        assert(names.deep_view() =~= additional_fields@.take(0).map_values(
            |p: SessionProperties| spec_property_name(p),
        ));
    }
    while i < n
        invariant
            n == additional_fields@.len(),
            0 <= i <= n,
            names.deep_view() == additional_fields@.take(i as int).map_values(
                |p: SessionProperties| spec_property_name(p),
            ),
        decreases n - i,
    {
        let name = additional_fields[i].name_text();
        proof {
            assert(name@ == spec_property_name(additional_fields@[i as int]));
        }
        let ghost before = names.deep_view();
        names.push(name.to_owned());
        proof {
            assert(names@.len() == before.len() + 1);
            assert(names.deep_view()[before.len() as int] == name@);
            assert(forall|k: int|
                0 <= k < before.len() ==> #[trigger] names.deep_view()[k] == before[k]);
            assert(names.deep_view() =~= additional_fields@.take(i + 1).map_values(
                |p: SessionProperties| spec_property_name(p),
            ));
        }
        i = i + 1;
    }
    proof {
        assert(additional_fields@.take(n as int) =~= additional_fields@);
    }
    "api/v1/sessions?additionalFields=".to_owned().concat(join_comma(&names).as_str())
}

} // verus!
