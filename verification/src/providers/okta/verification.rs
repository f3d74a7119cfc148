//! The bodies a challenge verification sends, and where they go.
//!
//! Every kind carries the state token; only SMS and TOTP carry a code.

use crate::errors::BrokerError;
use crate::providers::okta::factors::Factor;
use crate::providers::okta::response::{link_href, spec_href_of, spec_link_for, Links};
use vstd::prelude::*;

verus! {

/// The body of one verification request.
#[derive(Debug, Clone, PartialEq)]
pub enum VerificationRequest {
    Sms { state_token: String, pass_code: Option<String> },
    Push { state_token: String },
    Totp { state_token: String, pass_code: String },
    WebAuthn {
        state_token: String,
        signature_data: Option<String>,
        authenticator_data: Option<String>,
        client_data: Option<String>,
    },
}

/// The verification links a factor carries, if any.
pub open spec fn spec_factor_links(f: Factor) -> Option<Seq<(String, Links)>> {
    match f {
        Factor::Push { links, .. } => match links {
            Some(l) => Some(l@),
            None => None,
        },
        Factor::Sms { links, .. } => match links {
            Some(l) => Some(l@),
            None => None,
        },
        Factor::Totp { links, .. } => match links {
            Some(l) => Some(l@),
            None => None,
        },
        Factor::WebAuthn { links, .. } => match links {
            Some(l) => Some(l@),
            None => None,
        },
        Factor::Unimplemented => None,
    }
}

/// The URL a factor's challenge is verified at: the factor's `verify` link.
/// A factor without one cannot be verified; the unimplemented kind never can.
pub fn verify_url(factor: &Factor) -> (r: Result<String, BrokerError>)
    ensures
        *factor is Unimplemented ==> (r matches Err(e) && e is UnimplementedFactor),
        !(*factor is Unimplemented) ==> (match spec_factor_links(*factor) {
            Some(links) => match spec_link_for(links, "verify"@) {
                Some(l) => r == (match spec_href_of(l) {
                    Some(u) => Ok::<String, BrokerError>(u),
                    None => Err(BrokerError::MissingVerificationLink),
                }),
                None => r matches Err(e) && e is MissingVerificationLink,
            },
            None => r matches Err(e) && e is MissingVerificationLink,
        }),
{
    let links = match factor {
        Factor::Push { links, .. } => links,
        Factor::Sms { links, .. } => links,
        Factor::Totp { links, .. } => links,
        Factor::WebAuthn { links, .. } => links,
        Factor::Unimplemented => {
            return Err(BrokerError::UnimplementedFactor);
        },
    };
    match links {
        Some(l) => match link_href(l, "verify") {
            Some(u) => Ok(u),
            None => Err(BrokerError::MissingVerificationLink),
        },
        None => Err(BrokerError::MissingVerificationLink),
    }
}

/// The URL a push challenge is re-polled at: the response's `next` link.
pub fn poll_url(links: &Vec<(String, Links)>) -> (r: Result<String, BrokerError>)
    ensures
        r == (match spec_link_for(links@, "next"@) {
            Some(l) => match spec_href_of(l) {
                Some(u) => Ok::<String, BrokerError>(u),
                None => Err::<String, BrokerError>(BrokerError::MissingVerificationLink),
            },
            None => Err::<String, BrokerError>(BrokerError::MissingVerificationLink),
        }),
{
    match link_href(links, "next") {
        Some(u) => Ok(u),
        None => Err(BrokerError::MissingVerificationLink),
    }
}

} // verus!
