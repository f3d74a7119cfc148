use crowbar::credentials::aws::{expired_at, AwsCredentials, ExchangedCredentials};
use std::collections::HashMap;

const FUTURE: &str = "2038-01-01T10:10:10.311833Z";

fn create_credentials() -> AwsCredentials {
    AwsCredentials {
        version: 1,
        access_key_id: Some("some_key".to_string()),
        secret_access_key: Some("some_secret".to_string()),
        session_token: Some("some_token".to_string()),
        expiration: Some(FUTURE.to_string()),
    }
}

fn create_expired_credentials() -> AwsCredentials {
    AwsCredentials {
        version: 1,
        access_key_id: Some("some_key".to_string()),
        secret_access_key: Some("some_secret".to_string()),
        session_token: Some("some_token".to_string()),
        expiration: Some("2004-01-01T10:10:10Z".to_string()),
    }
}

fn hashmap_credentials() -> HashMap<String, Option<String>> {
    [
        ("access_key_id".to_string(), Some("some_key".to_string())),
        (
            "secret_access_key".to_string(),
            Some("some_secret".to_string()),
        ),
        ("session_token".to_string(), Some("some_token".to_string())),
        ("expiration".to_string(), Some(FUTURE.to_string())),
    ]
    .iter()
    .cloned()
    .collect()
}

fn now() -> i64 {
    chrono::Utc::now().timestamp()
}

#[test]
fn shows_if_expired() {
    assert!(!create_credentials().is_expired(now()).unwrap());
    assert!(create_expired_credentials().is_expired(now()).unwrap())
}

#[test]
#[should_panic]
fn shows_if_not_expired() {
    assert!(create_credentials().is_expired(now()).unwrap());
    assert!(!create_credentials().is_expired(now()).unwrap())
}

#[test]
fn should_render_proper_json() {
    let json = format!(
        "{}{}{}",
        r#"{"Version":1,"AccessKeyId":"some_key","SecretAccessKey":"some_secret","SessionToken":"some_token","Expiration":""#,
        FUTURE,
        r#""}"#
    );
    assert_eq!(json, create_credentials().to_json())
}

#[test]
fn parses_aws_credentials_to_hashmap() {
    let hash_map: HashMap<String, Option<String>> =
        create_credentials().to_field_pairs().into_iter().collect();
    assert_eq!(hash_map, hashmap_credentials());
}

#[test]
fn creates_aws_credentials_from_hashmap() {
    let pairs: Vec<(String, Option<String>)> = create_credentials().to_field_pairs();
    assert_eq!(create_credentials(), AwsCredentials::from_field_pairs(&pairs));
}

#[test]
fn credentials_with_a_missing_field_are_never_valid() {
    assert!(create_credentials().valid());

    let mut creds = create_credentials();
    creds.access_key_id = None;
    assert!(!creds.valid());

    let mut creds = create_credentials();
    creds.secret_access_key = None;
    assert!(!creds.valid());

    let mut creds = create_credentials();
    creds.session_token = None;
    assert!(!creds.valid());

    let mut creds = create_credentials();
    creds.expiration = None;
    assert!(!creds.valid());

    assert!(!AwsCredentials::default().valid());
}

#[test]
fn expiry_boundary_is_a_hard_900_seconds() {
    let at = now();
    assert!(expired_at(at + 899, at));
    assert!(!expired_at(at + 900, at));
    assert!(!expired_at(at + 901, at));
}

#[test]
fn cached_credentials_far_from_expiry_are_reused() {
    // Expiring in 2038: no fresh login is needed.
    assert!(!create_credentials().needs_refresh(now()));
}

#[test]
fn cached_credentials_past_expiry_trigger_fresh_login() {
    // Expired in 2004: the broker authenticates afresh.
    assert!(create_expired_credentials().needs_refresh(now()));
}

#[test]
fn incomplete_cached_credentials_trigger_fresh_login() {
    assert!(AwsCredentials::default().needs_refresh(now()));
}

#[test]
fn exchange_without_credentials_block_is_its_own_error() {
    let err = AwsCredentials::from_exchange(None).unwrap_err();
    assert_eq!(
        err.message(),
        "Error fetching credentials from assumed role"
    );

    let ok = AwsCredentials::from_exchange(Some(ExchangedCredentials {
        access_key_id: Some("some_key".to_string()),
        secret_access_key: Some("some_secret".to_string()),
        session_token: Some("some_token".to_string()),
        expiration: Some(FUTURE.to_string()),
    }))
    .unwrap();
    assert_eq!(ok, create_credentials());
}

#[test]
fn renders_json_with_escaped_quotes() {
    let mut creds = create_credentials();
    creds.session_token = Some("a\"b\\c".to_string());
    let json = creds.to_json();
    assert!(json.contains(r#""SessionToken":"a\"b\\c""#));
}

#[test]
fn renders_json_with_escaped_control_characters() {
    let mut creds = create_credentials();
    creds.session_token = Some("a\nb\tc\rd\u{1}e".to_string());
    let json = creds.to_json();
    assert!(json.contains(r#""SessionToken":"a\nb\tc\rd\u0001e""#));
    assert!(serde_json::from_str::<serde_json::Value>(&json).is_ok());
}

#[test]
fn env_pairs_carry_keys_but_never_the_expiration() {
    let pairs = create_credentials().to_env_pairs();
    assert_eq!(3, pairs.len());
    assert_eq!(
        ("AWS_ACCESS_KEY_ID".to_string(), "some_key".to_string()),
        pairs[0]
    );
    assert_eq!(
        ("AWS_SECRET_ACCESS_KEY".to_string(), "some_secret".to_string()),
        pairs[1]
    );
    assert_eq!(
        ("AWS_SESSION_TOKEN".to_string(), "some_token".to_string()),
        pairs[2]
    );
}
