//! The authentication state machine.
//!
//! `evaluate_response` turns each protocol response into the next thing to
//! do: hand over the session token, fail with a distinguishable kind, ask
//! the operator to choose a factor or enter a code, send a verification, or
//! start polling a push challenge. The caller performs the I/O and feeds the
//! next response back in. Push polling re-polls every two seconds and gives
//! up at a sixty-second ceiling, handing back the last, possibly still
//! waiting, response.

use crate::errors::BrokerError;
use crate::providers::okta::factors::Factor;
use crate::providers::okta::response::{spec_label, FactorResult, Links, Response, Status};
use crate::providers::okta::verification::VerificationRequest;
use vstd::prelude::*;

verus! {

/// The polling ceiling, in seconds.
pub const PUSH_WAIT_TIMEOUT: i64 = 60;

/// The fixed pause between two polls, in seconds; latency is operator-driven,
/// so the interval is deliberately not exponential.
pub const BACKOFF_SECONDS: i64 = 2;

/// What the driver must do next with a login in progress.
#[derive(Debug)]
pub enum AuthStep {
    /// Authentication reached its terminal state: here is the session token.
    Token(String),
    /// Authentication failed; the kind tells wrong password, network
    /// failure and challenge rejection apart.
    Fail(BrokerError),
    /// Several usable factors are enrolled: the operator must choose one,
    /// and the chosen factor's first challenge goes out with this token.
    PromptFactorChoice { factors: Vec<Factor>, state_token: String },
    /// Send this verification for this factor and feed the answer back.
    Verify { factor: Factor, request: VerificationRequest },
    /// The factor takes a human-entered code: prompt, then build the
    /// verification with `code_challenge`.
    PromptCode { factor: Factor, state_token: String },
    /// A push challenge: send the verification, then poll the `next` link.
    PollPush { factor: Factor, request: VerificationRequest, links: Vec<(String, Links)> },
}

/// Factors the machine can drive: everything but the unimplemented kind.
pub open spec fn spec_usable(factors: Seq<Factor>) -> Seq<Factor> {
    factors.filter(|f: Factor| !(f is Unimplemented))
}

/// Drops the factors the machine cannot drive.
pub fn filter_factors(factors: Vec<Factor>) -> (r: Vec<Factor>)
    ensures
        r@ == spec_usable(factors@),
{
    let ghost orig = factors@;
    let n = factors.len();
    let mut rest = factors;
    let mut kept: Vec<Factor> = Vec::new();
    let mut i: usize = 0;
    proof {
        assert(orig.take(0) =~= Seq::<Factor>::empty());
        assert(orig.take(0).filter(|f: Factor| !(f is Unimplemented)) =~= Seq::<Factor>::empty());
        assert(orig.skip(0) =~= orig);
    }
    while i < n
        invariant
            n == orig.len(),
            0 <= i <= n,
            rest@ == orig.skip(i as int),
            kept@ == orig.take(i as int).filter(|f: Factor| !(f is Unimplemented)),
        decreases n - i,
    {
        let f = rest.remove(0);
        proof {
            assert(orig.skip(i as int)[0] == orig[i as int]);
            assert(orig.skip(i as int).remove(0) =~= orig.skip(i + 1));
            assert(orig.take(i + 1).drop_last() =~= orig.take(i as int));
            assert(orig.take(i + 1).last() == orig[i as int]);
            reveal(Seq::filter);
        }
        match f {
            Factor::Unimplemented => {},
            _ => {
                kept.push(f);
            },
        }
        i = i + 1;
    }
    proof {
        assert(orig.take(n as int) =~= orig);
    }
    kept
}

/// What factor selection decided: the lone factor, or a choice to put to the
/// operator.
#[derive(Debug)]
pub enum FactorSelection {
    Auto(Factor),
    Choice(Vec<Factor>),
}

/// Selects among usable factors: none is fatal, one is taken without a
/// prompt, several go to the operator as an ordered list.
pub fn select_factor(factors: Vec<Factor>) -> (r: Result<FactorSelection, BrokerError>)
    ensures
        factors@.len() == 0 ==> (r matches Err(e) && e is NoAvailableFactors),
        factors@.len() == 1 ==> (r matches Ok(s) && s == FactorSelection::Auto(factors@[0])),
        factors@.len() >= 2 ==> (r matches Ok(s) && s matches FactorSelection::Choice(fs) && fs@
            == factors@),
    {
    if factors.len() == 0 {
        Err(BrokerError::NoAvailableFactors)
    } else if factors.len() == 1 {
        let mut factors = factors;
        let f = factors.remove(0);
        Ok(FactorSelection::Auto(f))
    } else {
        Ok(FactorSelection::Choice(factors))
    }
}

/// The first challenge a factor gets at factor selection: SMS asks the
/// server to send a code, TOTP needs the operator's code first, push and
/// WebAuthn are verified directly, the unimplemented kind is fatal.
pub fn initial_challenge(factor: Factor, state_token: String) -> (r: AuthStep)
    ensures
        factor is Sms ==> r == (AuthStep::Verify {
            factor,
            request: VerificationRequest::Sms { state_token, pass_code: None },
        }),
        factor is Totp ==> r == (AuthStep::PromptCode { factor, state_token }),
        factor is Push ==> r == (AuthStep::Verify {
            factor,
            request: VerificationRequest::Push { state_token },
        }),
        factor is WebAuthn ==> r == (AuthStep::Verify {
            factor,
            request: VerificationRequest::WebAuthn {
                state_token,
                signature_data: None,
                authenticator_data: None,
                client_data: None,
            },
        }),
        factor is Unimplemented ==> (r matches AuthStep::Fail(e) && e is UnimplementedFactor),
{
    match factor {
        Factor::Sms { .. } => AuthStep::Verify {
            factor,
            request: VerificationRequest::Sms { state_token, pass_code: None },
        },
        Factor::Totp { .. } => AuthStep::PromptCode { factor, state_token },
        Factor::Push { .. } => AuthStep::Verify {
            factor,
            request: VerificationRequest::Push { state_token },
        },
        Factor::WebAuthn { .. } => AuthStep::Verify {
            factor,
            request: VerificationRequest::WebAuthn {
                state_token,
                signature_data: None,
                authenticator_data: None,
                client_data: None,
            },
        },
        Factor::Unimplemented => AuthStep::Fail(BrokerError::UnimplementedFactor),
    }
}

/// The verification a human-entered code completes: a code answers only an
/// SMS or TOTP challenge.
pub fn code_challenge(factor: &Factor, state_token: String, code: String) -> (r: Option<
    VerificationRequest,
>)
    ensures
        *factor is Sms ==> r == Some(
            VerificationRequest::Sms { state_token, pass_code: Some(code) },
        ),
        *factor is Totp ==> r == Some(VerificationRequest::Totp { state_token, pass_code: code }),
        !(*factor is Sms) && !(*factor is Totp) ==> r is None,
{
    match factor {
        Factor::Sms { .. } => Some(VerificationRequest::Sms { state_token, pass_code: Some(code) }),
        Factor::Totp { .. } => Some(VerificationRequest::Totp { state_token, pass_code: code }),
        _ => None,
    }
}

/// What one protocol response means for the machine; relates the response to
/// the step the driver is handed.
pub open spec fn spec_auth_step(resp: Response, r: AuthStep) -> bool {
    match resp.status {
        Status::Success => match resp.session_token {
            Some(t) => r == AuthStep::Token(t),
            None => r matches AuthStep::Fail(e) && e is MissingSessionToken,
        },
        Status::Unauthenticated => r matches AuthStep::Fail(e) && (e matches
            BrokerError::ProtocolRejection(t) && t@ == "UNAUTHENTICATED"@),
        Status::MfaRequired => match resp.state_token {
            None => r matches AuthStep::Fail(e) && e is MissingStateToken,
            Some(st) => match resp.embedded {
                None => r matches AuthStep::Fail(e) && e is MissingFactors,
                Some(emb) => match emb.factors {
                    None => r matches AuthStep::Fail(e) && e is MissingFactors,
                    Some(fs) => {
                        let usable = spec_usable(fs@);
                        if usable.len() == 0 {
                            r matches AuthStep::Fail(e) && e is NoAvailableFactors
                        } else if usable.len() == 1 {
                            spec_initial_step(usable[0], st, r)
                        } else {
                            r matches AuthStep::PromptFactorChoice { factors: fs2, state_token: st2 }
                                && fs2@ == usable && st2 == st
                        }
                    },
                },
            },
        },
        Status::MfaChallenge => match resp.state_token {
            None => r matches AuthStep::Fail(e) && e is MissingStateToken,
            Some(st) => {
                if resp.factor_result == Some(FactorResult::Rejected) {
                    r matches AuthStep::Fail(e) && e is MfaRejected
                } else if resp.factor_result == Some(FactorResult::Timeout) {
                    r matches AuthStep::Fail(e) && e is MfaTimeout
                } else {
                    match resp.embedded {
                        None => r matches AuthStep::Fail(e) && e is MissingFactors,
                        Some(emb) => match emb.factor {
                            None => r matches AuthStep::Fail(e) && e is MissingFactors,
                            Some(f) => match f {
                                Factor::Sms { .. } => r == (AuthStep::PromptCode {
                                    factor: f,
                                    state_token: st,
                                }),
                                Factor::Push { .. } => match resp.links {
                                    None => r matches AuthStep::Fail(e) && e
                                        is MissingVerificationLink,
                                    Some(ls) => r == (AuthStep::PollPush {
                                        factor: f,
                                        request: VerificationRequest::Push { state_token: st },
                                        links: ls,
                                    }),
                                },
                                _ => r matches AuthStep::Fail(e) && e is UnknownChallenge,
                            },
                        },
                    }
                }
            },
        },
        _ => r matches AuthStep::Fail(e) && (e matches BrokerError::ProtocolRejection(t) && t@
            == spec_label(resp.status)),
    }
}

/// The step a single factor's first challenge amounts to.
pub open spec fn spec_initial_step(factor: Factor, state_token: String, r: AuthStep) -> bool {
    match factor {
        Factor::Sms { .. } => r == (AuthStep::Verify {
            factor,
            request: VerificationRequest::Sms { state_token, pass_code: None },
        }),
        Factor::Totp { .. } => r == (AuthStep::PromptCode { factor, state_token }),
        Factor::Push { .. } => r == (AuthStep::Verify {
            factor,
            request: VerificationRequest::Push { state_token },
        }),
        Factor::WebAuthn { .. } => r == (AuthStep::Verify {
            factor,
            request: VerificationRequest::WebAuthn {
                state_token,
                signature_data: None,
                authenticator_data: None,
                client_data: None,
            },
        }),
        Factor::Unimplemented => r matches AuthStep::Fail(e) && e is UnimplementedFactor,
    }
}

/// Turns one protocol response into the next step. Transport never retries;
/// a rejected or timed-out challenge fails with its own kind; the in-between
/// states of the protocol that the broker does not support fail with the
/// provider's own status label rather than crashing.
pub fn evaluate_response(response: Response) -> (r: AuthStep)
    ensures
        spec_auth_step(response, r),
{
    match response.status {
        Status::Success => match response.session_token {
            Some(t) => AuthStep::Token(t),
            None => AuthStep::Fail(BrokerError::MissingSessionToken),
        },
        Status::Unauthenticated => AuthStep::Fail(
            BrokerError::ProtocolRejection("UNAUTHENTICATED".to_owned()),
        ),
        Status::MfaRequired => {
            let st = match response.state_token {
                Some(st) => st,
                None => {
                    return AuthStep::Fail(BrokerError::MissingStateToken);
                },
            };
            let emb = match response.embedded {
                Some(emb) => emb,
                None => {
                    return AuthStep::Fail(BrokerError::MissingFactors);
                },
            };
            let fs = match emb.factors {
                Some(fs) => fs,
                None => {
                    return AuthStep::Fail(BrokerError::MissingFactors);
                },
            };
            let usable = filter_factors(fs);
            match select_factor(usable) {
                Err(e) => AuthStep::Fail(e),
                Ok(FactorSelection::Auto(f)) => initial_challenge(f, st),
                Ok(FactorSelection::Choice(fs2)) => AuthStep::PromptFactorChoice {
                    factors: fs2,
                    state_token: st,
                },
            }
        },
        Status::MfaChallenge => {
            let st = match response.state_token {
                Some(st) => st,
                None => {
                    return AuthStep::Fail(BrokerError::MissingStateToken);
                },
            };
            if response.factor_result == Some(FactorResult::Rejected) {
                return AuthStep::Fail(BrokerError::MfaRejected);
            }
            if response.factor_result == Some(FactorResult::Timeout) {
                return AuthStep::Fail(BrokerError::MfaTimeout);
            }
            let emb = match response.embedded {
                Some(emb) => emb,
                None => {
                    return AuthStep::Fail(BrokerError::MissingFactors);
                },
            };
            let f = match emb.factor {
                Some(f) => f,
                None => {
                    return AuthStep::Fail(BrokerError::MissingFactors);
                },
            };
            match f {
                Factor::Sms { .. } => AuthStep::PromptCode { factor: f, state_token: st },
                Factor::Push { .. } => match response.links {
                    None => AuthStep::Fail(BrokerError::MissingVerificationLink),
                    Some(ls) => AuthStep::PollPush {
                        factor: f,
                        request: VerificationRequest::Push { state_token: st },
                        links: ls,
                    },
                },
                _ => AuthStep::Fail(BrokerError::UnknownChallenge),
            }
        },
        _ => AuthStep::Fail(BrokerError::ProtocolRejection(response.status.label().to_owned())),
    }
}

/// The number-matching answer a push response carries, when it carries one.
pub open spec fn spec_push_answer(resp: Response) -> Option<u64> {
    match resp.embedded {
        Some(emb) => match emb.factor {
            Some(f) => match f {
                Factor::Push { embedded, .. } => match embedded {
                    Some(fe) => match fe.challenge {
                        Some(ch) => ch.correct_answer,
                        None => None,
                    },
                    None => None,
                },
                _ => None,
            },
            None => None,
        },
        None => None,
    }
}

/// Digs the number-matching answer out of a push poll response, so the line
/// shown to the operator can name it.
pub fn fetch_correct_push_answer(response: &Response) -> (r: Option<u64>)
    ensures
        r == spec_push_answer(*response),
{
    match &response.embedded {
        Some(emb) => match &emb.factor {
            Some(Factor::Push { embedded: Some(fe), .. }) => match &fe.challenge {
                Some(ch) => ch.correct_answer,
                None => None,
            },
            _ => None,
        },
        None => None,
    }
}

/// Whether the seconds elapsed since the loop started at `start_secs` still
/// lie short of the polling ceiling at `now_secs`.
pub fn timeout_not_reached(start_secs: i64, now_secs: i64) -> (r: bool)
    ensures
        r == (now_secs - start_secs < PUSH_WAIT_TIMEOUT),
{
    (now_secs as i128) - (start_secs as i128) < (PUSH_WAIT_TIMEOUT as i128)
}

/// A response that keeps the poll loop going: the challenge is still waiting
/// for the operator.
pub open spec fn spec_waiting(resp: Response) -> bool {
    resp.factor_result == Some(FactorResult::Waiting) || resp.factor_result == Some(
        FactorResult::Challenge,
    )
}

/// Whether the poll loop makes another round: the challenge is unresolved
/// and the next poll still falls inside the ceiling.
pub fn push_poll_should_continue(response: &Response, elapsed_secs: i64) -> (r: bool)
    requires
        elapsed_secs <= PUSH_WAIT_TIMEOUT,
    ensures
        r == (spec_waiting(*response) && elapsed_secs as int + BACKOFF_SECONDS
            <= PUSH_WAIT_TIMEOUT),
{
    let waiting = match &response.factor_result {
        Some(FactorResult::Waiting) => true,
        Some(FactorResult::Challenge) => true,
        _ => false,
    };
    waiting && elapsed_secs + BACKOFF_SECONDS <= PUSH_WAIT_TIMEOUT
}

/// The index of the first response that is no longer waiting.
pub open spec fn first_resolved(s: Seq<Response>) -> Option<int>
    decreases s.len(),
{
    if s.len() == 0 {
        None
    } else if !spec_waiting(s[0]) {
        Some(0)
    } else {
        match first_resolved(s.drop_first()) {
            Some(k) => Some(k + 1),
            None => None,
        }
    }
}

pub proof fn lemma_first_resolved_props(s: Seq<Response>)
    ensures
        first_resolved(s) matches Some(k) ==> 0 <= k < s.len() && !spec_waiting(s[k]) && forall|
            j: int,
        | 0 <= j < k ==> spec_waiting(#[trigger] s[j]),
        first_resolved(s) is None ==> forall|j: int| 0 <= j < s.len() ==> spec_waiting(
            #[trigger] s[j],
        ),
    decreases s.len(),
{
    if s.len() > 0 {
        lemma_first_resolved_props(s.drop_first());
        if spec_waiting(s[0]) {
            let t = s.drop_first();
            match first_resolved(t) {
                Some(k) => {
                    assert(first_resolved(s) == Some(k + 1));
                    assert(s[k + 1] == t[k]);
                    assert forall|j: int| 0 <= j < k + 1 implies spec_waiting(#[trigger] s[j]) by {
                        if j > 0 {
                            assert(t[j - 1] == s[j]);
                            assert(spec_waiting(t[j - 1]));
                        }
                    }
                },
                None => {
                    assert forall|j: int| 0 <= j < s.len() implies spec_waiting(
                        #[trigger] s[j],
                    ) by {
                        if j > 0 {
                            assert(t[j - 1] == s[j]);
                            assert(spec_waiting(t[j - 1]));
                        }
                    }
                },
            }
        }
    }
}

/// Where the poll loop stopped: the response it stopped on, and how many
/// seconds had elapsed.
#[derive(Debug)]
pub struct PushPollOutcome {
    pub response: Response,
    pub elapsed_secs: i64,
}

/// Replays the polling rule over the responses the wire hands back at each
/// two-second tick: stop at the first resolved response, or at the
/// sixty-second ceiling with the last, possibly still waiting, response —
/// the caller treats that as failure.
pub fn drive_push_poll(responses: Vec<Response>) -> (r: PushPollOutcome)
    requires
        responses@.len() > 0,
        (match first_resolved(responses@) {
            Some(k) => k <= 30 || responses@.len() >= 31,
            None => responses@.len() >= 31,
        }),
    ensures
        ({
            let idx = match first_resolved(responses@) {
                Some(k) => if k <= 30 {
                    k
                } else {
                    30
                },
                None => 30int,
            };
            &&& r.response == responses@[idx]
            &&& r.elapsed_secs == BACKOFF_SECONDS * idx
        }),
{
    proof {
        lemma_first_resolved_props(responses@);
    }
    let n = responses.len();
    let mut i: usize = 0;
    while i < 30 && is_waiting(&responses[i])
        invariant
            n == responses@.len(),
            n > 0,
            (match first_resolved(responses@) {
                Some(k) => k <= 30 || n >= 31,
                None => n >= 31,
            }),
            0 <= i <= 30,
            i < n,
            forall|j: int| 0 <= j < i ==> spec_waiting(#[trigger] responses@[j]),
        decreases 30 - i,
    {
        proof {
            lemma_first_resolved_props(responses@);
            assert(spec_waiting(responses@[i as int]));
            match first_resolved(responses@) {
                Some(k) => {
                    assert(i < k || n >= 31);
                },
                None => {},
            }
        }
        i = i + 1;
    }
    proof {
        lemma_first_resolved_props(responses@);
        if i < 30 {
            assert(!spec_waiting(responses@[i as int]));
            assert(first_resolved(responses@) == Some(i as int));
        } else {
            match first_resolved(responses@) {
                Some(k) => {
                    assert(k >= 30);
                    if !spec_waiting(responses@[30]) {
                        assert(k == 30);
                    }
                },
                None => {},
            }
        }
    }
    let mut responses = responses;
    let response = responses.remove(i);
    PushPollOutcome { response, elapsed_secs: BACKOFF_SECONDS * (i as i64) }
}

/// What the attempt does once the poll loop has stopped: a response still
/// waiting — which the loop hands out only at the ceiling — fails the
/// attempt as a timeout; a resolved response feeds back into the machine.
pub fn conclude_push_poll(outcome: PushPollOutcome) -> (r: AuthStep)
    ensures
        spec_waiting(outcome.response) ==> (r matches AuthStep::Fail(e) && e is MfaTimeout),
        !spec_waiting(outcome.response) ==> spec_auth_step(outcome.response, r),
{
    if is_waiting(&outcome.response) {
        AuthStep::Fail(BrokerError::MfaTimeout)
    } else {
        evaluate_response(outcome.response)
    }
}

fn is_waiting(response: &Response) -> (r: bool)
    ensures
        r == spec_waiting(*response),
{
    match &response.factor_result {
        Some(FactorResult::Waiting) => true,
        Some(FactorResult::Challenge) => true,
        _ => false,
    }
}

} // verus!
