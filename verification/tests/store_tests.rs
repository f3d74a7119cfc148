use crowbar::aws::credentials::{CredentialsStore, ProfileCredentials};
use crowbar::config::app::AppProfile;
use crowbar::credentials::aws::{credentials_as_service, AwsCredentials};
use crowbar::credentials::config::ConfigCredentials;
use crowbar::credentials::{Credential, MemoryStore, SecretStore};
use crowbar::providers::ProviderType;

fn short_app_profile_a() -> AppProfile {
    AppProfile {
        name: "profile".to_owned(),
        provider: ProviderType::Okta,
        url: "https://example.com/example/url".to_owned(),
        username: "username".to_owned(),
        role: None,
    }
}

fn short_app_profile_b() -> AppProfile {
    AppProfile {
        name: "profile2".to_owned(),
        provider: ProviderType::Okta,
        url: "https://example2.com/example/url".to_owned(),
        username: "username".to_owned(),
        role: None,
    }
}

fn create_credentials() -> AwsCredentials {
    AwsCredentials {
        version: 1,
        access_key_id: Some("some_key".to_string()),
        secret_access_key: Some("some_secret".to_string()),
        session_token: Some("some_token".to_string()),
        expiration: Some("2038-01-01T10:10:10.311833Z".to_string()),
    }
}

fn empty_credentials() -> AwsCredentials {
    AwsCredentials::default()
}

#[test]
fn load_non_existing_credentials() {
    let store = MemoryStore::new();
    let app_profile = short_app_profile_a();
    let creds = AwsCredentials::load(&app_profile, &store).unwrap();

    assert_eq!(creds, empty_credentials());
}

#[test]
fn handles_credentials_with_keystore() {
    let mut store = MemoryStore::new();
    let app_profile = short_app_profile_b();
    let creds = create_credentials();

    let creds = creds.write(&app_profile, &mut store).unwrap();

    let service = credentials_as_service(&app_profile).unwrap();
    let value = store.get_secret(&service, "access_key_id").unwrap();

    assert_eq!(creds.access_key_id.clone().unwrap(), value);

    let mock_creds = create_credentials();
    let creds = AwsCredentials::load(&app_profile, &store).unwrap();

    assert_eq!(creds, mock_creds);

    let _res = creds.delete(&app_profile, &mut store).unwrap();
    let empty_creds = AwsCredentials::load(&app_profile, &store).unwrap();

    assert_eq!(AwsCredentials::default(), empty_creds);
}

#[test]
fn load_non_existing_config_credentials() {
    let store = MemoryStore::new();
    let app_profile = short_app_profile_a();

    // A password cannot be invented: a missing entry is an error, and the
    // default value stands for "nothing cached".
    assert!(ConfigCredentials::load(&app_profile, &store).is_err());
    assert_eq!(ConfigCredentials::default().password, "");
}

#[test]
fn handles_config_credentials_with_keystore() {
    let mut store = MemoryStore::new();
    let app_profile = short_app_profile_b();
    let creds = ConfigCredentials::from_password("hunter2".to_owned());

    let creds = creds.write(&app_profile, &mut store).unwrap();

    let service = crowbar::credentials::config::profile_as_service(&app_profile).unwrap();
    let value = store.get_secret(&service, &app_profile.username);

    assert_eq!(Some(creds.password.clone()), value);

    let mock_creds = ConfigCredentials::from_password("hunter2".to_owned());
    let creds = ConfigCredentials::load(&app_profile, &store).unwrap();

    assert_eq!(creds, mock_creds);

    let _res = creds.delete(&app_profile, &mut store).unwrap();
    assert!(ConfigCredentials::load(&app_profile, &store).is_err());
}

#[test]
fn cache_keys_are_hashed_identifiers() {
    // Neither cache key carries the raw profile name or username; both end
    // in the profile's hashed identifier.
    let profile = short_app_profile_a();
    let id = profile.identifier().unwrap();
    assert_eq!(
        format!("crowbar::aws::{}", id),
        credentials_as_service(&profile).unwrap()
    );
    assert_eq!(
        format!("crowbar::config::{}", id),
        crowbar::credentials::config::profile_as_service(&profile).unwrap()
    );
    assert!(!credentials_as_service(&profile).unwrap().contains("username"));
}

#[test]
fn set_profile_appends_replaces_and_refuses() {
    let mut table = CredentialsStore::new();

    let sts = ProfileCredentials::from_session_keys(
        "ACCESS_KEY".to_owned(),
        "SECRET_ACCESS_KEY".to_owned(),
        "SESSION_TOKEN".to_owned(),
    );
    table.set_profile("example".to_owned(), sts).unwrap();
    assert_eq!(1, table.credentials.len());

    let replacement = ProfileCredentials::from_session_keys(
        "ACCESS_KEY2".to_owned(),
        "SECRET_ACCESS_KEY2".to_owned(),
        "SESSION_TOKEN2".to_owned(),
    );
    table
        .set_profile("example".to_owned(), replacement.clone())
        .unwrap();
    assert_eq!(1, table.credentials.len());
    assert_eq!(replacement, table.credentials[0].1);

    let iam = ProfileCredentials::Iam {
        access_key_id: "ACCESS_KEY".to_owned(),
        secret_access_key: "SECRET_ACCESS_KEY".to_owned(),
    };
    table.set_profile("existing".to_owned(), iam).unwrap();

    let refused = table.set_profile(
        "existing".to_owned(),
        ProfileCredentials::from_session_keys(
            "A".to_owned(),
            "B".to_owned(),
            "C".to_owned(),
        ),
    );
    assert!(refused.is_err());
    assert_eq!(2, table.credentials.len());
}
