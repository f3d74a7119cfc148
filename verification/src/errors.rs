//! Error kinds of the broker.
//!
//! The kinds keep apart what spec-level callers must distinguish: transport
//! failure, protocol rejection with the provider's own label, rejection or
//! timeout of a multi-factor challenge, parse failures with their reason, an
//! exchange that succeeded without returning credentials, and configuration
//! mistakes.

use vstd::prelude::*;
use vstd::string::StringExecFns;

verus! {

#[derive(Debug, Clone)]
pub enum BrokerError {
    /// An HTTP or serialization failure; never retried.
    Transport(String),
    /// The provider refused the login; carries the provider's status label.
    ProtocolRejection(String),
    /// A multi-factor challenge was rejected by the operator.
    MfaRejected,
    /// A multi-factor challenge timed out.
    MfaTimeout,
    /// A role attribute held fewer than two comma-separated fields.
    NotEnoughElements(String),
    /// A role attribute held more than two comma-separated fields.
    TooManyElements(String),
    /// Neither or both fields of a role attribute looked like a role ARN.
    AmbiguousRolePair(String),
    /// The assertion was not valid base64.
    InvalidBase64,
    /// The decoded assertion was not valid UTF-8.
    InvalidUtf8,
    /// The decoded assertion was not a well-formed XML document.
    InvalidXml,
    /// The assertion carried no role attribute values at all.
    NoRolesInAssertion,
    /// The exchange succeeded but its response had no credentials block.
    MissingCredentialsInResponse,
    /// A success response arrived without a session token.
    MissingSessionToken,
    /// A challenge response arrived without a state token.
    MissingStateToken,
    /// A challenge response arrived without factor information.
    MissingFactors,
    /// Multi-factor login is required but no usable factor is enrolled.
    NoAvailableFactors,
    /// The chosen factor kind is not implemented.
    UnimplementedFactor,
    /// A challenge arrived for a factor kind that takes no challenge.
    UnknownChallenge,
    /// A factor carried no verification link.
    MissingVerificationLink,
    /// A profile with this name already exists.
    DuplicateProfile(String),
    /// No profile with the requested name exists.
    ProfileNotFound,
    /// The configuration holds no profiles at all.
    NoProfilesConfigured,
    /// A profile URL could not be parsed.
    InvalidUrl,
    /// The provider name is not one of the supported providers.
    UnknownProvider,
    /// A scraped login form had no submission URL.
    MissingSubmitUrl,
    /// A login page held no state token.
    StateTokenNotFound,
    /// The platform secret store refused an operation.
    SecretStoreFailure(String),
    /// A shared-credentials profile holds long-lived keys, not session keys.
    NotStsProfile(String),
    /// A scraped page held no assertion element at all.
    AssertionNotFound,
    /// A scraped page held an assertion element without a value.
    AssertionValueMissing,
}

pub open spec fn spec_message(e: BrokerError) -> Seq<char> {
    match e {
        BrokerError::Transport(s) => "Transport failure: "@ + s@,
        BrokerError::ProtocolRejection(s) => "Login rejected in state "@ + s@,
        BrokerError::MfaRejected => "Verification challenge was rejected"@,
        BrokerError::MfaTimeout => "Verification challenge timed out"@,
        BrokerError::NotEnoughElements(s) => "Not enough elements in "@ + s@,
        BrokerError::TooManyElements(s) => "Too many elements in "@ + s@,
        BrokerError::AmbiguousRolePair(s) => "Cannot tell the role from the provider in "@ + s@,
        BrokerError::InvalidBase64 => "Assertion is not valid base64"@,
        BrokerError::InvalidUtf8 => "Assertion is not valid UTF-8"@,
        BrokerError::InvalidXml => "Assertion is not well-formed XML"@,
        BrokerError::NoRolesInAssertion => "No roles found in the assertion"@,
        BrokerError::MissingCredentialsInResponse => "Error fetching credentials from assumed role"@,
        BrokerError::MissingSessionToken => "The session token is missing from the success response"@,
        BrokerError::MissingStateToken => "Missing state token in response"@,
        BrokerError::MissingFactors => "Missing factors for MFA challenge"@,
        BrokerError::NoAvailableFactors => "MFA required, and no available factors"@,
        BrokerError::UnimplementedFactor => "The selected factor isn't implemented"@,
        BrokerError::UnknownChallenge => "Unknown challenge received for MFA type"@,
        BrokerError::MissingVerificationLink => "Missing verification link in factor"@,
        BrokerError::DuplicateProfile(s) => "Profile with the name "@ + s@ + " already exists"@,
        BrokerError::ProfileNotFound => "Unable to delete profile: Profile not found"@,
        BrokerError::NoProfilesConfigured => "No profiles available or empty configuration."@,
        BrokerError::InvalidUrl => "Cannot parse profile URL"@,
        BrokerError::UnknownProvider => "Unable to determine provider type"@,
        BrokerError::MissingSubmitUrl => "Missing submission URL for authentication form"@,
        BrokerError::StateTokenNotFound => "No state token found"@,
        BrokerError::SecretStoreFailure(s) => "Secret store failure: "@ + s@,
        BrokerError::NotStsProfile(s) => "Profile '"@ + s@
            + "' does not contain STS credentials. Ignoring"@,
        BrokerError::AssertionNotFound => "Could not find SAML element in HTML response"@,
        BrokerError::AssertionValueMissing => "Missing SAML response in assertion element"@,
    }
}

impl BrokerError {
    /// A human-readable description of the error.
    pub fn message(&self) -> (r: String)
        ensures
            r@ == spec_message(*self),
    {
        match self {
            BrokerError::Transport(s) => "Transport failure: ".to_owned().concat(s.as_str()),
            BrokerError::ProtocolRejection(s) => "Login rejected in state ".to_owned().concat(
                s.as_str(),
            ),
            BrokerError::MfaRejected => "Verification challenge was rejected".to_owned(),
            BrokerError::MfaTimeout => "Verification challenge timed out".to_owned(),
            BrokerError::NotEnoughElements(s) => "Not enough elements in ".to_owned().concat(
                s.as_str(),
            ),
            BrokerError::TooManyElements(s) => "Too many elements in ".to_owned().concat(
                s.as_str(),
            ),
            BrokerError::AmbiguousRolePair(s) => {
                "Cannot tell the role from the provider in ".to_owned().concat(s.as_str())
            },
            BrokerError::InvalidBase64 => "Assertion is not valid base64".to_owned(),
            BrokerError::InvalidUtf8 => "Assertion is not valid UTF-8".to_owned(),
            BrokerError::InvalidXml => "Assertion is not well-formed XML".to_owned(),
            BrokerError::NoRolesInAssertion => "No roles found in the assertion".to_owned(),
            BrokerError::MissingCredentialsInResponse => {
                "Error fetching credentials from assumed role".to_owned()
            },
            BrokerError::MissingSessionToken => {
                "The session token is missing from the success response".to_owned()
            },
            BrokerError::MissingStateToken => "Missing state token in response".to_owned(),
            BrokerError::MissingFactors => "Missing factors for MFA challenge".to_owned(),
            BrokerError::NoAvailableFactors => "MFA required, and no available factors".to_owned(),
            BrokerError::UnimplementedFactor => "The selected factor isn't implemented".to_owned(),
            BrokerError::UnknownChallenge => "Unknown challenge received for MFA type".to_owned(),
            BrokerError::MissingVerificationLink => {
                "Missing verification link in factor".to_owned()
            },
            BrokerError::DuplicateProfile(s) => "Profile with the name ".to_owned().concat(
                s.as_str(),
            ).concat(" already exists"),
            BrokerError::ProfileNotFound => {
                "Unable to delete profile: Profile not found".to_owned()
            },
            BrokerError::NoProfilesConfigured => {
                "No profiles available or empty configuration.".to_owned()
            },
            BrokerError::InvalidUrl => "Cannot parse profile URL".to_owned(),
            BrokerError::UnknownProvider => "Unable to determine provider type".to_owned(),
            BrokerError::MissingSubmitUrl => {
                "Missing submission URL for authentication form".to_owned()
            },
            BrokerError::StateTokenNotFound => "No state token found".to_owned(),
            BrokerError::SecretStoreFailure(s) => "Secret store failure: ".to_owned().concat(
                s.as_str(),
            ),
            BrokerError::NotStsProfile(s) => "Profile '".to_owned().concat(s.as_str()).concat(
                "' does not contain STS credentials. Ignoring",
            ),
            BrokerError::AssertionNotFound => {
                "Could not find SAML element in HTML response".to_owned()
            },
            BrokerError::AssertionValueMissing => {
                "Missing SAML response in assertion element".to_owned()
            },
        }
    }
}

} // verus!
