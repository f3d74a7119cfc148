use crowbar::cli::select_log_level;
use crowbar::config::app::AppProfile;
use crowbar::config::{find_duplicate, CrowbarConfig};
use crowbar::providers::ProviderType;
use crowbar::utils::LevelFilter;

fn profile_a() -> AppProfile {
    AppProfile {
        name: "profile_a".to_owned(),
        username: "username_a".to_owned(),
        provider: ProviderType::Okta,
        url: "https://www.example.com/example/saml".to_owned(),
        role: None,
    }
}

fn profile_b() -> AppProfile {
    AppProfile {
        name: "profile_b".to_owned(),
        username: "username_b".to_owned(),
        provider: ProviderType::Okta,
        url: "https://www.example.com/example/saml".to_owned(),
        role: None,
    }
}

fn long_profile() -> AppProfile {
    AppProfile {
        name: "profile".to_owned(),
        provider: ProviderType::Okta,
        url: "https://subdomain.example.com/example/url".to_owned(),
        username: "username".to_owned(),
        role: Some("role".to_owned()),
    }
}

fn short_profile() -> AppProfile {
    AppProfile {
        name: "profile".to_owned(),
        provider: ProviderType::Okta,
        url: "https://example.com/example/url".to_owned(),
        username: "username".to_owned(),
        role: None,
    }
}

#[test]
fn log_levels_as_expected() {
    assert_eq!(LevelFilter::Info, select_log_level("info"));
    assert_eq!(LevelFilter::Debug, select_log_level("debug"));
    assert_eq!(LevelFilter::Trace, select_log_level("trace"));
    assert_eq!(LevelFilter::Info, select_log_level("something"))
}

#[test]
fn should_detect_profile_duplicate() {
    let profile_a_vec = vec![profile_a()];
    assert_eq!(true, find_duplicate(&profile_a_vec, &profile_a()));
    assert_eq!(false, find_duplicate(&profile_a_vec, &profile_b()))
}

#[test]
fn adds_new_profile_to_config() {
    let config = CrowbarConfig::new();

    assert_eq!(0, config.profiles.len());

    let new_config = config.add_profile(&profile_a()).unwrap();

    assert_eq!(1, new_config.profiles.len());
}

#[test]
fn refuses_to_add_duplicate_profile() {
    let config = CrowbarConfig {
        profiles: vec![profile_a()],
        location: None,
    };

    let result = config.add_profile(&profile_a());

    assert!(result.is_err());
}

#[test]
fn removes_profile_from_configuration() {
    let config = CrowbarConfig {
        profiles: vec![profile_a(), profile_b()],
        location: None,
    };

    assert_eq!(2, config.profiles.len());

    let profile = profile_a();
    let new_config = config.delete_profile(&profile.name).unwrap();

    assert_eq!(1, new_config.profiles.len());
}

#[test]
fn error_on_profile_not_exist() {
    let config = CrowbarConfig {
        profiles: vec![profile_b()],
        location: None,
    };

    let profile = profile_a();
    assert!(config.delete_profile(&profile.name).is_err());
}

#[test]
fn returns_request_url() {
    assert_eq!(
        "https://example.com/example/url",
        short_profile().request_url().unwrap()
    );
}

#[test]
fn returns_base_of_url_just_host() {
    assert_eq!("https://example.com", short_profile().base_url().unwrap());
}

#[test]
fn returns_base_of_url_host_and_subdomain() {
    assert_eq!(
        "https://subdomain.example.com",
        long_profile().base_url().unwrap()
    );
}

#[test]
fn validates_profile_name() {
    assert_eq!("profile", short_profile().name)
}

#[test]
fn selects_first_profile_by_name() {
    let config = CrowbarConfig {
        profiles: vec![profile_a(), profile_b()],
        location: None,
    };
    let found = config.select_profile("profile_b").unwrap();
    assert_eq!("profile_b", found.name);
    assert!(config.select_profile("missing").is_err());
}

#[test]
fn hashes_the_profile_identifier() {
    let profile = short_profile();
    assert_eq!(
        "aa282e1a2e3632ac6d8006019cac8c28441a020b90b180534e4b7213800f4a72",
        profile.identifier().unwrap()
    );
    let other = long_profile();
    assert_eq!(
        "cd6b2824e8fc07af0bf899b1ddb3128c7f4aa561b881972875d3c050377e8118",
        other.identifier().unwrap()
    );
}

#[test]
fn parses_provider_names_case_insensitively() {
    assert_eq!(ProviderType::Okta, ProviderType::from_name("OKTA").unwrap());
    assert_eq!(
        ProviderType::Jumpcloud,
        ProviderType::from_name("JumpCloud").unwrap()
    );
    assert_eq!(ProviderType::Adfs, ProviderType::from_name("adfs").unwrap());
    assert!(ProviderType::from_name("something").is_err());
}
