use crowbar::okta::factor::{Factor, FactorProvider, SmsFactorProfile};
use crowbar::okta::{extract_saml_response, Organization, OktaMfaFactor};
use crowbar::providers::okta::sessions::{sessions_path, SessionProperties};

#[test]
fn organization_endpoint_lives_under_the_provider_domain() {
    let org = Organization::from_name("acme");
    assert_eq!("acme", org.name);
    assert_eq!("https://acme.okta.com/", org.base_url);
}

#[test]
fn sessions_path_joins_the_extra_fields() {
    assert_eq!(
        "api/v1/sessions?additionalFields=",
        sessions_path(&vec![])
    );
    assert_eq!(
        "api/v1/sessions?additionalFields=cookieToken",
        sessions_path(&vec![SessionProperties::CookieToken])
    );
    assert_eq!(
        "api/v1/sessions?additionalFields=cookieToken,cookieTokenUrl",
        sessions_path(&vec![
            SessionProperties::CookieToken,
            SessionProperties::CookieTokenUrl
        ])
    );
}

#[test]
fn factor_menu_lines_name_the_factor() {
    assert_eq!("Okta Verify Push", OktaMfaFactor::Push { id: "a".into() }.label());
    let sms = Factor::Sms {
        id: "a".into(),
        provider: FactorProvider::Okta,
        status: None,
        profile: SmsFactorProfile {
            phone_number: "12345".into(),
        },
    };
    assert_eq!("Okta SMS to 12345", sms.label());
}

#[test]
fn extracting_from_a_page_without_the_field_reports_not_found() {
    let r = extract_saml_response("<html><body>nothing here</body></html>".to_string());
    assert!(r.is_err());
}
