use crowbar::providers::adfs::{
    build_login_form_elements, evaluate_response_state, fetch_submit_url, ResponseState,
};
use crowbar::providers::jumpcloud::{create_redirect_to, should_retry_with_otp, LoginRequest};
use std::collections::HashMap;

#[test]
fn parses_body_returns_form_content() {
    let body = r#"
        <input name="UserName" type="email" />
        <input name="Password" type="password" />
        <input name="Checkbox" type="checkbox" />
        <input name="AuthForm" type="hidden" value="SomethingSecret" />
    "#;

    let form_content: HashMap<String, String> =
        build_login_form_elements("jdoe", "password", body)
            .into_iter()
            .collect();

    assert_eq!(*form_content.get("UserName").unwrap(), "jdoe");
    assert_eq!(*form_content.get("Password").unwrap(), "password");
    assert_eq!(*form_content.get("AuthForm").unwrap(), "SomethingSecret");
    assert!(form_content.get("Checkbox").is_none());
}

#[test]
fn filters_input_params() {
    let response = r#"
        <input name="AuthMethod" value="VIPAuthenticationProviderWindowsAccountName" />
    "#;

    let adfs_response = evaluate_response_state(response).unwrap();
    assert_eq!(adfs_response.state, ResponseState::MfaPrompt);

    let response = r#"
        <input name="AuthMethod" value="AzureMfaAuthentication" />
    "#;

    let adfs_response = evaluate_response_state(response).unwrap();
    assert_eq!(adfs_response.state, ResponseState::MfaWait);

    let response = r#"
        <input name="AuthMethod" value="AzureMfaServerAuthentication" />
    "#;

    let adfs_response = evaluate_response_state(response).unwrap();
    assert_eq!(adfs_response.state, ResponseState::MfaWait);

    let response = r#"
        <input name="VerificationCode" value="" />
    "#;

    let adfs_response = evaluate_response_state(response).unwrap();
    assert_eq!(adfs_response.state, ResponseState::MfaPrompt);

    let response = r#"
        <input name="SomeOtherInput" value="Value" />
    "#;

    let adfs_response = evaluate_response_state(response).unwrap();
    assert_eq!(adfs_response.state, ResponseState::Error);
}

#[test]
fn fetches_the_last_forms_action() {
    let body = r#"
        <form action="https://first.example.com/ignored"></form>
        <form action="https://adfs.example.com:443/adfs/ls/IdpInitiatedSignOn.aspx?loginToRp=urn:amazon:webservices"></form>
    "#;
    assert_eq!(
        "https://adfs.example.com:443/adfs/ls/IdpInitiatedSignOn.aspx?loginToRp=urn:amazon:webservices",
        fetch_submit_url(body).unwrap()
    );
    assert!(fetch_submit_url("<html></html>").is_err());
}

#[test]
fn jumpcloud_login_request_starts_without_a_code() {
    let request = LoginRequest::from_credentials(
        "user".to_string(),
        "password".to_string(),
        "saml2/aws".to_string(),
    );
    assert_eq!("sso", request.context);
    assert_eq!("", request.otp);
    assert_eq!("saml2/aws", request.redirect_to);
}

#[test]
fn jumpcloud_retries_only_an_unauthorized_first_attempt() {
    assert!(should_retry_with_otp(401, true));
    assert!(!should_retry_with_otp(401, false));
    assert!(!should_retry_with_otp(500, true));
}

#[test]
fn jumpcloud_redirect_drops_the_leading_slash() {
    assert_eq!(
        "saml2/aws",
        create_redirect_to("https://sso.jumpcloud.com/saml2/aws").unwrap()
    );
    assert!(create_redirect_to("not a url").is_err());
}
