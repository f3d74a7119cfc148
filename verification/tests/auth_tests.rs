use crowbar::errors::BrokerError;
use crowbar::providers::okta::auth::{
    code_challenge, conclude_push_poll, drive_push_poll, evaluate_response,
    fetch_correct_push_answer, filter_factors, push_poll_should_continue, timeout_not_reached,
    AuthStep,
};
use crowbar::providers::okta::factors::{
    Factor, FactorChallenge, FactorEmbedded, FactorProvider, PushFactorProfile, SmsFactorProfile,
};
use crowbar::providers::okta::response::{Embedded, FactorResult, Response, Status};
use crowbar::providers::okta::verification::VerificationRequest;

fn sms_factor() -> Factor {
    Factor::Sms {
        id: "id".to_string(),
        links: None,
        profile: SmsFactorProfile {
            phone_number: "12345".to_string(),
        },
        status: None,
        provider: FactorProvider::Okta,
    }
}

fn push_factor(embedded: Option<FactorEmbedded>) -> Factor {
    Factor::Push {
        id: "push-id".to_string(),
        provider: FactorProvider::Okta,
        status: None,
        profile: PushFactorProfile {
            credential_id: "credential".to_string(),
            device_type: "phone".to_string(),
            name: "operator's phone".to_string(),
            platform: "mobile".to_string(),
            version: "1".to_string(),
        },
        links: None,
        embedded,
    }
}

fn bare_response(status: Status) -> Response {
    Response {
        state_token: None,
        session_token: None,
        expires_at: None,
        status,
        factor_result: None,
        relay_state: None,
        links: None,
        embedded: None,
    }
}

fn waiting_response() -> Response {
    let mut r = bare_response(Status::MfaChallenge);
    r.factor_result = Some(FactorResult::Waiting);
    r
}

fn now() -> i64 {
    chrono::Utc::now().timestamp()
}

#[test]
fn should_reach_timeout() {
    // A loop whose start lies a minute or more in the past has reached the
    // ceiling.
    let start = chrono::NaiveDateTime::parse_from_str("2004-01-01T10:10:10", "%Y-%m-%dT%H:%M:%S")
        .unwrap()
        .and_utc()
        .timestamp();
    assert_eq!(false, timeout_not_reached(start, now()));
    assert_eq!(false, timeout_not_reached(now() - 60, now()));
}

#[test]
fn timeout_not_reached_for_the_recent_past() {
    assert_eq!(true, timeout_not_reached(now() - 3, now()));
}

#[test]
fn filters_unknown_factors() {
    let sms_factor = sms_factor();

    let factors = vec![
        Factor::Unimplemented,
        sms_factor.clone(),
        Factor::Unimplemented,
    ];

    let filtered = filter_factors(factors);
    assert_eq!(filtered.len(), 1);

    let factor = filtered.first().unwrap().to_owned();
    assert_eq!(factor, sms_factor);
}

#[test]
fn reads_the_push_challenge_answer() {
    let mut response = bare_response(Status::MfaChallenge);
    response.embedded = Some(Embedded {
        factors: None,
        factor: Some(push_factor(Some(FactorEmbedded {
            challenge: Some(FactorChallenge {
                challenge: Some("challenge".to_string()),
                correct_answer: Some(44),
            }),
        }))),
        user: None,
    });

    assert_eq!(fetch_correct_push_answer(&response).unwrap(), 44);
}

// Correct credentials with a single enrolled SMS factor: the machine selects
// it without a prompt, issues the SMS challenge, takes the code, and the
// final success response yields the session token.
#[test]
fn sms_login_runs_to_a_session_token() {
    let mut mfa_required = bare_response(Status::MfaRequired);
    mfa_required.state_token = Some("state-1".to_string());
    mfa_required.embedded = Some(Embedded {
        factors: Some(vec![sms_factor()]),
        factor: None,
        user: None,
    });

    // One usable factor: selected automatically, the SMS challenge goes out.
    match evaluate_response(mfa_required) {
        AuthStep::Verify { factor, request } => {
            assert_eq!(factor, sms_factor());
            assert_eq!(
                request,
                VerificationRequest::Sms {
                    state_token: "state-1".to_string(),
                    pass_code: None,
                }
            );
        }
        other => panic!("expected an SMS verification, got {:?}", other),
    }

    // The challenge response asks for the operator's code.
    let mut challenge = bare_response(Status::MfaChallenge);
    challenge.state_token = Some("state-2".to_string());
    challenge.embedded = Some(Embedded {
        factors: None,
        factor: Some(sms_factor()),
        user: None,
    });

    match evaluate_response(challenge) {
        AuthStep::PromptCode {
            factor,
            state_token,
        } => {
            let request = code_challenge(&factor, state_token, "123456".to_string()).unwrap();
            assert_eq!(
                request,
                VerificationRequest::Sms {
                    state_token: "state-2".to_string(),
                    pass_code: Some("123456".to_string()),
                }
            );
        }
        other => panic!("expected a code prompt, got {:?}", other),
    }

    // The verified challenge answers with success and the token.
    let mut success = bare_response(Status::Success);
    success.session_token = Some("the-session-token".to_string());
    match evaluate_response(success) {
        AuthStep::Token(token) => assert_eq!("the-session-token", token),
        other => panic!("expected the session token, got {:?}", other),
    }
}

// Push polls come back Waiting at 0, 2 and 4 seconds and resolve at 6:
// well inside the ceiling, and the success response yields the token.
#[test]
fn push_poll_resolves_within_the_ceiling() {
    let mut success = bare_response(Status::Success);
    success.factor_result = Some(FactorResult::Success);
    success.session_token = Some("push-session-token".to_string());

    let polls = vec![
        waiting_response(),
        waiting_response(),
        waiting_response(),
        success.clone(),
    ];

    let outcome = drive_push_poll(polls);
    assert_eq!(6, outcome.elapsed_secs);
    assert!(outcome.elapsed_secs <= 60);
    assert_eq!(Some(FactorResult::Success), outcome.response.factor_result);

    match conclude_push_poll(outcome) {
        AuthStep::Token(token) => assert_eq!("push-session-token", token),
        other => panic!("expected the session token, got {:?}", other),
    }
}

// A push that never resolves: the loop exits at the sixty-second ceiling and
// hands back the last, still waiting, response; the caller reports failure.
#[test]
fn push_poll_gives_up_at_the_ceiling() {
    let polls: Vec<Response> = (0..40).map(|_| waiting_response()).collect();

    let outcome = drive_push_poll(polls);
    assert_eq!(60, outcome.elapsed_secs);
    assert_eq!(Some(FactorResult::Waiting), outcome.response.factor_result);
    assert!(!push_poll_should_continue(&outcome.response, 60));

    // The attempt fails as a timeout rather than re-arming another poll.
    match conclude_push_poll(outcome) {
        AuthStep::Fail(e) => assert!(matches!(e, BrokerError::MfaTimeout)),
        other => panic!("expected a timeout failure, got {:?}", other),
    }
}

#[test]
fn rejected_and_timed_out_challenges_fail_with_their_own_kinds() {
    let mut rejected = bare_response(Status::MfaChallenge);
    rejected.state_token = Some("st".to_string());
    rejected.factor_result = Some(FactorResult::Rejected);
    match evaluate_response(rejected) {
        AuthStep::Fail(e) => assert!(matches!(e, BrokerError::MfaRejected)),
        other => panic!("expected a failure, got {:?}", other),
    }

    let mut timed_out = bare_response(Status::MfaChallenge);
    timed_out.state_token = Some("st".to_string());
    timed_out.factor_result = Some(FactorResult::Timeout);
    match evaluate_response(timed_out) {
        AuthStep::Fail(e) => assert!(matches!(e, BrokerError::MfaTimeout)),
        other => panic!("expected a failure, got {:?}", other),
    }
}

#[test]
fn wrong_credentials_are_a_protocol_rejection() {
    match evaluate_response(bare_response(Status::Unauthenticated)) {
        AuthStep::Fail(e) => assert!(matches!(e, BrokerError::ProtocolRejection(_))),
        other => panic!("expected a failure, got {:?}", other),
    }
}

#[test]
fn unsupported_states_report_the_provider_label() {
    match evaluate_response(bare_response(Status::LockedOut)) {
        AuthStep::Fail(BrokerError::ProtocolRejection(label)) => {
            assert_eq!("LOCKED_OUT", label)
        }
        other => panic!("expected a labelled rejection, got {:?}", other),
    }
}

#[test]
fn several_factors_go_to_the_operator() {
    let mut mfa_required = bare_response(Status::MfaRequired);
    mfa_required.state_token = Some("st".to_string());
    mfa_required.embedded = Some(Embedded {
        factors: Some(vec![sms_factor(), push_factor(None), Factor::Unimplemented]),
        factor: None,
        user: None,
    });

    match evaluate_response(mfa_required) {
        AuthStep::PromptFactorChoice {
            factors,
            state_token,
        } => {
            assert_eq!("st", state_token);
            assert_eq!(2, factors.len());
            assert_eq!("Okta SMS to 12345", factors[0].label());
            assert_eq!("Okta Verify Push to operator's phone", factors[1].label());
        }
        other => panic!("expected a factor choice, got {:?}", other),
    }
}

#[test]
fn no_usable_factor_is_fatal() {
    let mut mfa_required = bare_response(Status::MfaRequired);
    mfa_required.state_token = Some("st".to_string());
    mfa_required.embedded = Some(Embedded {
        factors: Some(vec![Factor::Unimplemented]),
        factor: None,
        user: None,
    });

    match evaluate_response(mfa_required) {
        AuthStep::Fail(e) => assert!(matches!(e, BrokerError::NoAvailableFactors)),
        other => panic!("expected a failure, got {:?}", other),
    }
}
