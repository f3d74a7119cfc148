//! The closed set of factor kinds a login can be challenged with.
//!
//! SMS and TOTP take a human-entered code, push needs no code but is polled,
//! WebAuthn needs platform challenge material, and anything else the wire
//! names arrives as the unimplemented kind.

use crate::providers::okta::response::Links;
use crate::text::clone_opt_string;
use vstd::prelude::*;
use vstd::string::StringExecFns;

verus! {

/// The embedded block of a factor during a challenge.
#[derive(Debug, Clone, PartialEq)]
pub struct FactorEmbedded {
    pub challenge: Option<FactorChallenge>,
}

/// A number-matching challenge: the operator must pick the correct answer.
#[derive(Debug, Clone, PartialEq)]
pub struct FactorChallenge {
    pub challenge: Option<String>,
    pub correct_answer: Option<u64>,
}

/// Who issues the factor.
#[derive(Debug, Clone, Copy, PartialEq, Eq, Structural)]
pub enum FactorProvider {
    Okta,
    Google,
    Fido,
}

/// The enrollment state of a factor.
#[derive(Debug, Clone, Copy, PartialEq, Eq, Structural)]
pub enum FactorStatus {
    NotSetup,
    PendingActivation,
    Enrolled,
    Active,
    Inactive,
    Expired,
}

/// Profile data of an SMS factor.
#[derive(Debug, Clone, PartialEq)]
pub struct SmsFactorProfile {
    pub phone_number: String,
}

/// Profile data of a push factor.
#[derive(Debug, Clone, PartialEq)]
pub struct PushFactorProfile {
    pub credential_id: String,
    pub device_type: String,
    pub name: String,
    pub platform: String,
    pub version: String,
}

/// Profile data of a TOTP factor.
#[derive(Debug, Clone, PartialEq)]
pub struct TokenFactorProfile {
    pub credential_id: String,
}

/// Profile data of a WebAuthn factor.
#[derive(Debug, Clone, PartialEq)]
pub struct WebAuthnFactorProfile {
    pub credential_id: String,
    pub authenticator_name: String,
}

/// One enrolled factor, with its verification links.
#[derive(Debug, Clone, PartialEq)]
pub enum Factor {
    Push {
        id: String,
        provider: FactorProvider,
        status: Option<FactorStatus>,
        profile: PushFactorProfile,
        links: Option<Vec<(String, Links)>>,
        embedded: Option<FactorEmbedded>,
    },
    Sms {
        id: String,
        provider: FactorProvider,
        status: Option<FactorStatus>,
        profile: SmsFactorProfile,
        links: Option<Vec<(String, Links)>>,
    },
    Totp {
        id: String,
        provider: FactorProvider,
        status: Option<FactorStatus>,
        profile: TokenFactorProfile,
        links: Option<Vec<(String, Links)>>,
    },
    WebAuthn {
        id: String,
        provider: FactorProvider,
        status: Option<FactorStatus>,
        profile: WebAuthnFactorProfile,
        links: Option<Vec<(String, Links)>>,
        embedded: Option<FactorEmbedded>,
    },
    Unimplemented,
}

impl Factor {
    /// The line a factor menu shows for this factor.
    pub fn label(&self) -> (r: String)
        ensures
            self matches Factor::Push { profile, .. } ==> r@ == "Okta Verify Push to "@
                + profile.name@,
            self matches Factor::Sms { profile, .. } ==> r@ == "Okta SMS to "@
                + profile.phone_number@,
            self matches Factor::Totp { provider, .. } && provider is Google ==> r@
                == "Software TOTP"@,
            self matches Factor::Totp { provider, .. } && !(provider is Google) ==> r@
                == "Okta Verify TOTP"@,
            self matches Factor::WebAuthn { profile, .. } ==> r@ == "WebAuthn with "@
                + profile.authenticator_name@,
            *self is Unimplemented ==> r@ == "Unimplemented factor"@,
    {
        match self {
            Factor::Push { profile, .. } => "Okta Verify Push to ".to_owned().concat(
                profile.name.as_str(),
            ),
            Factor::Sms { profile, .. } => "Okta SMS to ".to_owned().concat(
                profile.phone_number.as_str(),
            ),
            Factor::Totp { provider: FactorProvider::Google, .. } => "Software TOTP".to_owned(),
            Factor::Totp { .. } => "Okta Verify TOTP".to_owned(),
            Factor::WebAuthn { profile, .. } => "WebAuthn with ".to_owned().concat(
                profile.authenticator_name.as_str(),
            ),
            Factor::Unimplemented => "Unimplemented factor".to_owned(),
        }
    }
}

} // verus!
