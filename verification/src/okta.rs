//! The organization-based API surface of the broker: request and response
//! shapes keyed to an organization's login endpoint, and the scraping of a
//! state token out of a login page for re-login.

pub mod auth;
pub mod factor;
pub mod sessions;
pub mod users;

use crate::errors::BrokerError;
use crate::saml::{
    extract_outcome, extract_saml_assertion, input_field_value, spec_extraction_succeeds,
    ExtractSamlResponseError,
};
use crate::text::{find_substring, first_substring, push_char, str_eq};
use vstd::prelude::*;
use vstd::string::StringExecFns;

verus! {

/// An organization and its login endpoint.
#[derive(Debug, Clone, PartialEq)]
pub struct Organization {
    pub name: String,
    pub base_url: String,
}

impl Organization {
    /// The organization of a name: its endpoint lives under the provider's
    /// domain.
    pub fn from_name(s: &str) -> (r: Organization)
        ensures
            r.name@ == s@,
            r.base_url@ == "https://"@ + s@ + ".okta.com/"@,
    {
        Organization {
            name: s.to_owned(),
            base_url: "https://".to_owned().concat(s).concat(".okta.com/"),
        }
    }
}

/// The body of one login request.
#[derive(Debug, Clone, PartialEq)]
pub struct OktaLoginRequest {
    pub username: Option<String>,
    pub password: Option<String>,
    pub relay_state: Option<String>,
    pub state_token: Option<String>,
}

impl OktaLoginRequest {
    /// A first login: username and password.
    pub fn from_credentials(username: String, password: String) -> (r: OktaLoginRequest)
        ensures
            r.username == Some(username),
            r.password == Some(password),
            r.relay_state is None,
            r.state_token is None,
    {
        OktaLoginRequest {
            username: Some(username),
            password: Some(password),
            relay_state: None,
            state_token: None,
        }
    }

    /// A re-login within a session: only the state token.
    pub fn from_state_token(token: String) -> (r: OktaLoginRequest)
        ensures
            r.username is None,
            r.password is None,
            r.relay_state is None,
            r.state_token == Some(token),
    {
        OktaLoginRequest {
            username: None,
            password: None,
            relay_state: None,
            state_token: Some(token),
        }
    }
}

/// One step's answer from the login endpoint.
#[derive(Debug, Clone, PartialEq)]
pub struct OktaLoginResponse {
    pub state_token: Option<String>,
    pub session_token: Option<String>,
    pub expires_at: Option<String>,
    pub status: OktaLoginState,
    pub relay_state: Option<String>,
    pub embedded: Option<OktaEmbedded>,
}

/// An application tile of a user.
#[derive(Debug, Clone, PartialEq)]
pub struct OktaAppLink {
    pub id: String,
    pub label: String,
    pub link_url: String,
    pub app_name: String,
}

/// The embedded factor list of a challenge response.
#[derive(Debug, Clone, PartialEq)]
pub struct OktaEmbedded {
    pub factors: Vec<OktaMfaFactor>,
}

/// The factor kinds this surface understands.
#[derive(Debug, Clone, PartialEq)]
pub enum OktaMfaFactor {
    Push { id: String },
    Sms { id: String },
    Call { id: String },
    Totp { id: String },
}

impl OktaMfaFactor {
    /// The line a factor menu shows.
    pub fn label(&self) -> (r: &'static str)
        ensures
            *self is Push ==> r@ == "Okta Verify Push"@,
            *self is Sms ==> r@ == "Okta SMS"@,
            *self is Call ==> r@ == "Okta Call"@,
            *self is Totp ==> r@ == "Okta Verify TOTP"@,
    {
        match self {
            OktaMfaFactor::Push { .. } => "Okta Verify Push",
            OktaMfaFactor::Sms { .. } => "Okta SMS",
            OktaMfaFactor::Call { .. } => "Okta Call",
            OktaMfaFactor::Totp { .. } => "Okta Verify TOTP",
        }
    }
}

/// The protocol states of a login response.
#[derive(Debug, Clone, Copy, PartialEq, Eq, Structural)]
pub enum OktaLoginState {
    Unauthenticated,
    PasswordWarn,
    PasswordExpired,
    Recovery,
    RecoveryChallenge,
    PasswordReset,
    LockedOut,
    MfaEnroll,
    MfaEnrollActivate,
    MfaRequired,
    MfaChallenge,
    Success,
}

/// Digs the hidden assertion field out of a scraped page and parses its
/// value, telling a page without the field apart from one whose field is
/// broken.
pub fn extract_saml_response(text: String) -> (r: Result<
    crate::saml::Response,
    ExtractSamlResponseError,
>)
    ensures
        extract_outcome(input_field_value(text@, "SAMLResponse"@), r),
        r is Ok <==> spec_extraction_succeeds(input_field_value(text@, "SAMLResponse"@)),
        r matches Ok(resp) ==> resp.roles@.len() > 0,
{
    extract_saml_assertion(text.as_str())
}

/// A login-page script escape, undone: each literal `\x2D` becomes a dash,
/// everything else passes through.
pub open spec fn unescape_dashes(s: Seq<char>) -> Seq<char>
    decreases s.len(),
{
    if s.len() >= 4 && s.subrange(0, 4) == "\\x2D"@ {
        seq!['-'] + unescape_dashes(s.skip(4))
    } else if s.len() == 0 {
        Seq::empty()
    } else {
        seq![s[0]] + unescape_dashes(s.drop_first())
    }
}

/// Undoes the login page's escaping of dashes in a scraped state token.
pub fn unescape_state_token(s: &str) -> (r: String)
    ensures
        r@ == unescape_dashes(s@),
{
    let n = s.unicode_len();
    let mut out = String::new();
    let mut i: usize = 0;
    proof {
        assert(s@.skip(0) =~= s@);
    }
    while i < n
        invariant
            n == s@.len(),
            0 <= i <= n,
            out@ + unescape_dashes(s@.skip(i as int)) == unescape_dashes(s@),
        decreases n - i,
    {
        let ghost rest = s@.skip(i as int);
        if n - i >= 4 && str_eq(s.substring_char(i, i + 4), "\\x2D") {
            proof {
                assert(rest.subrange(0, 4) =~= s@.subrange(i as int, i + 4));
                assert(rest.skip(4) =~= s@.skip(i + 4));
                assert(unescape_dashes(rest) == seq!['-'] + unescape_dashes(s@.skip(i + 4)));
                assert(out@.push('-') =~= out@ + seq!['-']);
                assert((out@ + seq!['-']) + unescape_dashes(s@.skip(i + 4)) =~= out@ + (seq!['-']
                    + unescape_dashes(s@.skip(i + 4))));
            }
            push_char(&mut out, '-');
            i = i + 4;
        } else {
            let c = s.get_char(i);
            proof {
                if n - i >= 4 {
                    assert(rest.subrange(0, 4) =~= s@.subrange(i as int, i + 4));
                    assert(rest.subrange(0, 4) != "\\x2D"@);
                }
                assert(rest[0] == s@[i as int]);
                assert(rest.drop_first() =~= s@.skip(i + 1));
                assert(unescape_dashes(rest) == seq![s@[i as int]] + unescape_dashes(
                    s@.skip(i + 1),
                ));
                assert(out@.push(c) =~= out@ + seq![c]);
                assert((out@ + seq![c]) + unescape_dashes(s@.skip(i + 1)) =~= out@ + (seq![c]
                    + unescape_dashes(s@.skip(i + 1))));
            }
            push_char(&mut out, c);
            i = i + 1;
        }
    }
    proof {
        assert(s@.skip(n as int) =~= Seq::<char>::empty());
        assert(out@ + Seq::<char>::empty() =~= out@);
    }
    out
}

/// Scrapes the state token out of a login page: the text between the first
/// `var stateToken = '` marker and the next `';`, with the page's dash
/// escapes undone. A page without the marker, or without a terminator after
/// it, holds no token.
pub fn extract_state_token(text: &str) -> (r: Result<String, BrokerError>)
    ensures
        ({
            let mi = first_substring(text@, "var stateToken = '"@);
            if mi < 0 {
                r matches Err(e) && e is StateTokenNotFound
            } else {
                let rest = text@.skip(mi + "var stateToken = '"@.len() as int);
                let ti = first_substring(rest, "';"@);
                if ti < 0 {
                    r matches Err(e) && e is StateTokenNotFound
                } else {
                    r matches Ok(token) && token@ == unescape_dashes(rest.take(ti))
                }
            }
        }),
{
    let marker = "var stateToken = '";
    let n = text.unicode_len();
    let i = match find_substring(text, marker) {
        Some(i) => i,
        None => {
            return Err(BrokerError::StateTokenNotFound);
        },
    };
    let mlen = marker.unicode_len();
    proof {
        assert(first_substring(text@, marker@) == i);
        crate::text::lemma_first_substring_props(text@, marker@);
    }
    let rest = text.substring_char(i + mlen, n);
    proof {
        assert(rest@ =~= text@.skip(i + mlen));
    }
    let j = match find_substring(rest, "';") {
        Some(j) => j,
        None => {
            return Err(BrokerError::StateTokenNotFound);
        },
    };
    proof {
        crate::text::lemma_first_substring_props(rest@, "';"@);
    }
    let raw = rest.substring_char(0, j);
    proof {
        assert(raw@ =~= rest@.take(j as int));
    }
    let token = unescape_state_token(raw);
    Ok(token)
}

} // verus!
