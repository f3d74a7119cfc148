//! The login protocol's response shape.
//!
//! A response carries an enumerated status, optional state and session
//! tokens, an optional factor result, hypermedia links keyed by relation —
//! each one link or a list, kept as the tagged either/or the wire uses — and
//! embedded factor and user data.

use crate::providers::okta::factors::Factor;
use crate::text::str_eq;
use vstd::prelude::*;

verus! {

/// The protocol states of a login response.
#[derive(Debug, Clone, Copy, PartialEq, Eq, Structural)]
pub enum Status {
    Unauthenticated,
    PasswordWarn,
    PasswordExpired,
    Recovery,
    RecoveryChallenge,
    PasswordReset,
    LockedOut,
    MfaEnroll,
    MfaEnrollActivate,
    MfaRequired,
    MfaChallenge,
    Success,
}

/// The provider's own label for a state, as the wire carries it.
pub open spec fn spec_label(s: Status) -> Seq<char> {
    match s {
        Status::Unauthenticated => "UNAUTHENTICATED"@,
        Status::PasswordWarn => "PASSWORD_WARN"@,
        Status::PasswordExpired => "PASSWORD_EXPIRED"@,
        Status::Recovery => "RECOVERY"@,
        Status::RecoveryChallenge => "RECOVERY_CHALLENGE"@,
        Status::PasswordReset => "PASSWORD_RESET"@,
        Status::LockedOut => "LOCKED_OUT"@,
        Status::MfaEnroll => "MFA_ENROLL"@,
        Status::MfaEnrollActivate => "MFA_ENROLL_ACTIVATE"@,
        Status::MfaRequired => "MFA_REQUIRED"@,
        Status::MfaChallenge => "MFA_CHALLENGE"@,
        Status::Success => "SUCCESS"@,
    }
}

impl Status {
    /// The provider's own label for this state, as the wire carries it.
    pub fn label(&self) -> (r: &'static str)
        ensures
            r@ == spec_label(*self),
    {
        match self {
            Status::Unauthenticated => "UNAUTHENTICATED",
            Status::PasswordWarn => "PASSWORD_WARN",
            Status::PasswordExpired => "PASSWORD_EXPIRED",
            Status::Recovery => "RECOVERY",
            Status::RecoveryChallenge => "RECOVERY_CHALLENGE",
            Status::PasswordReset => "PASSWORD_RESET",
            Status::LockedOut => "LOCKED_OUT",
            Status::MfaEnroll => "MFA_ENROLL",
            Status::MfaEnrollActivate => "MFA_ENROLL_ACTIVATE",
            Status::MfaRequired => "MFA_REQUIRED",
            Status::MfaChallenge => "MFA_CHALLENGE",
            Status::Success => "SUCCESS",
        }
    }
}

/// The outcome a challenge reports while and after it runs.
#[derive(Debug, Clone, Copy, PartialEq, Eq, Structural)]
pub enum FactorResult {
    Challenge,
    Success,
    Timeout,
    Waiting,
    Rejected,
}

impl FactorResult {
    /// The line shown for this outcome while polling.
    pub fn message(&self) -> (r: &'static str)
        ensures
            *self is Waiting || *self is Challenge ==> r@ == "Waiting for confirmation"@,
            *self is Timeout ==> r@ == "No verification after 60 seconds"@,
            *self is Rejected ==> r@ == "Verification challenge was rejected"@,
            *self is Success ==> r@ == "Verification challenge was successful"@,
    {
        match self {
            FactorResult::Waiting | FactorResult::Challenge => "Waiting for confirmation",
            FactorResult::Timeout => "No verification after 60 seconds",
            FactorResult::Rejected => "Verification challenge was rejected",
            FactorResult::Success => "Verification challenge was successful",
        }
    }
}

/// What the server allows on a link.
#[derive(Debug, Clone, PartialEq)]
pub struct Hint {
    pub allow: Vec<String>,
}

/// One hypermedia link.
#[derive(Debug, Clone, PartialEq)]
pub struct Link {
    pub name: Option<String>,
    pub href: String,
    pub hints: Hint,
}

/// The value under a link relation: one link, or a list of which the first
/// is used. The wire's either/or is kept, never normalized away.
#[derive(Debug, Clone, PartialEq)]
pub enum Links {
    Single(Link),
    Multi(Vec<Link>),
}

/// The user a response describes.
#[derive(Debug, Clone, PartialEq)]
pub struct User {
    pub id: String,
    pub profile: UserProfile,
}

/// Descriptive profile data of a user.
#[derive(Debug, Clone, PartialEq)]
pub struct UserProfile {
    pub login: String,
    pub first_name: String,
    pub last_name: String,
    pub locale: String,
    pub time_zone: String,
}

/// The embedded block of a response: the enrolled factors at factor
/// selection, the single factor during a challenge.
#[derive(Debug, Clone, PartialEq)]
pub struct Embedded {
    pub factors: Option<Vec<Factor>>,
    pub factor: Option<Factor>,
    pub user: Option<User>,
}

/// One step's answer from the login protocol.
#[derive(Debug, Clone, PartialEq)]
pub struct Response {
    pub state_token: Option<String>,
    pub session_token: Option<String>,
    pub expires_at: Option<String>,
    pub status: Status,
    pub factor_result: Option<FactorResult>,
    pub relay_state: Option<String>,
    pub links: Option<Vec<(String, Links)>>,
    pub embedded: Option<Embedded>,
}

/// The first links entry registered under a relation name.
pub open spec fn spec_link_for(links: Seq<(String, Links)>, rel: Seq<char>) -> Option<Links>
    decreases links.len(),
{
    if links.len() == 0 {
        None
    } else if links[0].0@ == rel {
        Some(links[0].1)
    } else {
        spec_link_for(links.drop_first(), rel)
    }
}

/// The URL a links value points at: the link itself, or the first of a list.
pub open spec fn spec_href_of(l: Links) -> Option<String> {
    match l {
        Links::Single(link) => Some(link.href),
        Links::Multi(list) => if list.len() > 0 {
            Some(list[0].href)
        } else {
            None
        },
    }
}

proof fn lemma_link_for_skip(links: Seq<(String, Links)>, rel: Seq<char>, j: int)
    requires
        0 <= j <= links.len(),
        forall|k: int| 0 <= k < j ==> links[k].0@ != rel,
    ensures
        spec_link_for(links, rel) == spec_link_for(links.skip(j), rel),
    decreases j,
{
    if j > 0 {
        assert(links.drop_first() =~= links.skip(1));
        lemma_link_for_skip(links.drop_first(), rel, j - 1);
        assert(links.drop_first().skip(j - 1) =~= links.skip(j));
    } else {
        assert(links.skip(0) =~= links);
    }
}

/// The URL registered under a relation name: the first matching entry's
/// link, or the first of its list.
pub fn link_href(links: &Vec<(String, Links)>, rel: &str) -> (r: Option<String>)
    ensures
        r == (match spec_link_for(links@, rel@) {
            Some(l) => spec_href_of(l),
            None => None::<String>,
        }),
{
    let n = links.len();
    let mut i: usize = 0;
    while i < n
        invariant
            n == links@.len(),
            0 <= i <= n,
            forall|k: int| 0 <= k < i ==> links@[k].0@ != rel@,
        decreases n - i,
    {
        let entry = &links[i];
        if str_eq(entry.0.as_str(), rel) {
            proof {
                lemma_link_for_skip(links@, rel@, i as int);
                assert(links@.skip(i as int)[0] == links@[i as int]);
            }
            match &entry.1 {
                Links::Single(link) => {
                    return Some(link.href.clone());
                },
                Links::Multi(list) => {
                    if list.len() > 0 {
                        return Some(list[0].href.clone());
                    } else {
                        return None;
                    }
                },
            }
        }
        i = i + 1;
    }
    proof {
        lemma_link_for_skip(links@, rel@, n as int);
        assert(links@.skip(n as int) =~= Seq::<(String, Links)>::empty());
    }
    None
}

} // verus!
