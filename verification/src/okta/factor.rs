//! The factor kinds and verification bodies of the organization-based
//! surface.

use vstd::prelude::*;
use vstd::string::StringExecFns;

verus! {

/// Who issues the factor.
#[derive(Debug, Clone, Copy, PartialEq, Eq, Structural)]
pub enum FactorProvider {
    Okta,
    Rsa,
    Symantec,
    Google,
    Duo,
    Yubico,
}

/// The enrollment state of a factor.
#[derive(Debug, Clone, Copy, PartialEq, Eq, Structural)]
pub enum FactorStatus {
    NotSetup,
    PendingActivation,
    Enrolled,
    Active,
    Inactive,
    Expired,
}

/// A pre-computed pass code pair of a hardware token.
#[derive(Debug, Clone, PartialEq)]
pub struct FactorVerification {
    pub pass_code: String,
    pub next_pass_code: Option<String>,
}

/// Profile data of an SMS factor.
#[derive(Debug, Clone, PartialEq)]
pub struct SmsFactorProfile {
    pub phone_number: String,
}

/// Profile data of a voice-call factor.
#[derive(Debug, Clone, PartialEq)]
pub struct CallFactorProfile {
    pub phone_number: String,
    pub phone_extension: Option<String>,
}

/// Profile data of a security-question factor.
#[derive(Debug, Clone, PartialEq)]
pub struct QuestionFactorProfile {
    pub question: String,
    pub question_text: String,
    pub answer: Option<String>,
}

/// Profile data of a token factor.
#[derive(Debug, Clone, PartialEq)]
pub struct TokenFactorProfile {
    pub credential_id: String,
}

/// Profile data of a web factor.
#[derive(Debug, Clone, PartialEq)]
pub struct WebFactorProfile {
    pub credential_id: String,
}

/// One enrolled factor of this surface.
#[derive(Debug, Clone, PartialEq)]
pub enum Factor {
    Push { id: String, provider: FactorProvider, status: Option<FactorStatus> },
    Sms {
        id: String,
        provider: FactorProvider,
        status: Option<FactorStatus>,
        profile: SmsFactorProfile,
    },
    Call {
        id: String,
        provider: FactorProvider,
        status: Option<FactorStatus>,
        profile: CallFactorProfile,
    },
    Token {
        id: String,
        provider: FactorProvider,
        status: Option<FactorStatus>,
        profile: TokenFactorProfile,
        verify: Option<FactorVerification>,
    },
    Totp {
        id: String,
        provider: FactorProvider,
        status: Option<FactorStatus>,
        profile: TokenFactorProfile,
    },
    Hotp {
        id: String,
        provider: FactorProvider,
        status: Option<FactorStatus>,
        profile: TokenFactorProfile,
        verify: Option<FactorVerification>,
    },
    Question {
        id: String,
        provider: FactorProvider,
        status: Option<FactorStatus>,
        profile: QuestionFactorProfile,
    },
    Web {
        id: String,
        provider: FactorProvider,
        status: Option<FactorStatus>,
        profile: WebFactorProfile,
    },
}

impl Factor {
    /// The line a factor menu shows for this factor.
    pub fn label(&self) -> (r: String)
        ensures
            *self is Push ==> r@ == "Okta Verify Push"@,
            self matches Factor::Sms { profile, .. } ==> r@ == "Okta SMS to "@
                + profile.phone_number@,
            self matches Factor::Call { profile, .. } ==> r@ == "Okta Call to "@
                + profile.phone_number@,
            *self is Token ==> r@ == "Okta One-time Password"@,
            *self is Totp ==> r@ == "Okta Time-based One-time Password"@,
            *self is Hotp ==> r@ == "Okta Hardware One-time Password"@,
            self matches Factor::Question { profile, .. } ==> r@ == "Question: "@
                + profile.question@,
            *self is Web ==> r@ == "Okta Web"@,
    {
        match self {
            Factor::Push { .. } => "Okta Verify Push".to_owned(),
            Factor::Sms { profile, .. } => "Okta SMS to ".to_owned().concat(
                profile.phone_number.as_str(),
            ),
            Factor::Call { profile, .. } => "Okta Call to ".to_owned().concat(
                profile.phone_number.as_str(),
            ),
            Factor::Token { .. } => "Okta One-time Password".to_owned(),
            Factor::Totp { .. } => "Okta Time-based One-time Password".to_owned(),
            Factor::Hotp { .. } => "Okta Hardware One-time Password".to_owned(),
            Factor::Question { profile, .. } => "Question: ".to_owned().concat(
                profile.question.as_str(),
            ),
            Factor::Web { .. } => "Okta Web".to_owned(),
        }
    }
}

/// The body of one verification request of this surface.
#[derive(Debug, Clone, PartialEq)]
pub enum FactorVerificationRequest {
    Question { answer: String },
    Sms { state_token: String, pass_code: Option<String> },
    Call { pass_code: Option<String> },
    Totp { pass_code: String },
    Token { pass_code: String },
}

} // verus!
