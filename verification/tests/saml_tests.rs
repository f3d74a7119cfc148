use crowbar::aws::role::Role;
use crowbar::errors::BrokerError;
use crowbar::okta::extract_state_token;
use crowbar::saml::{
    extract_saml_assertion, parse_assertion, ExtractSamlResponseError, Response,
};
use std::collections::HashSet;

fn saml_xml(values: &[&str]) -> String {
    let mut body = String::new();
    for v in values {
        body.push_str("<saml2:AttributeValue>");
        body.push_str(v);
        body.push_str("</saml2:AttributeValue>");
    }
    format!(
        "{}{}{}",
        r#"<?xml version="1.0" encoding="UTF-8"?><saml2p:Response xmlns:saml2p="urn:oasis:names:tc:SAML:2.0:protocol"><saml2:Assertion xmlns:saml2="urn:oasis:names:tc:SAML:2.0:assertion"><saml2:AttributeStatement><saml2:Attribute Name="https://aws.amazon.com/SAML/Attributes/Role">"#,
        body,
        r#"</saml2:Attribute></saml2:AttributeStatement></saml2:Assertion></saml2p:Response>"#
    )
}

fn parse_values(values: &[&str]) -> Result<Response, BrokerError> {
    parse_assertion(&base64::encode(saml_xml(values)))
}

#[test]
fn parses_the_asserted_roles() {
    let response = parse_values(&[
        "arn:aws:iam::123456789012:saml-provider/okta-idp,arn:aws:iam::123456789012:role/role1",
        "arn:aws:iam::123456789012:saml-provider/okta-idp,arn:aws:iam::123456789012:role/role2",
    ])
    .unwrap();

    let expected_roles = vec![
        Role {
            provider_arn: String::from("arn:aws:iam::123456789012:saml-provider/okta-idp"),
            role_arn: String::from("arn:aws:iam::123456789012:role/role1"),
        },
        Role {
            provider_arn: String::from("arn:aws:iam::123456789012:saml-provider/okta-idp"),
            role_arn: String::from("arn:aws:iam::123456789012:role/role2"),
        },
    ]
    .into_iter()
    .collect::<HashSet<Role>>();

    assert_eq!(
        response.roles.into_iter().collect::<HashSet<Role>>(),
        expected_roles
    );
}

#[test]
fn keeps_the_raw_assertion_untouched() {
    let encoded = base64::encode(saml_xml(&[
        "arn:aws:iam::123456789012:saml-provider/okta-idp,arn:aws:iam::123456789012:role/role1",
    ]));
    let response = parse_assertion(&encoded).unwrap();
    assert_eq!(encoded, response.raw);
}

#[test]
fn deduplicates_repeated_roles() {
    let value =
        "arn:aws:iam::123456789012:saml-provider/okta-idp,arn:aws:iam::123456789012:role/role1";
    let response = parse_values(&[value, value]).unwrap();
    assert_eq!(1, response.roles.len());
}

#[test]
fn zero_role_values_are_a_parse_failure_not_an_empty_success() {
    let err = parse_values(&[]).unwrap_err();
    assert!(matches!(err, BrokerError::NoRolesInAssertion));
}

#[test]
fn a_malformed_role_value_fails_the_whole_parse() {
    let err = parse_values(&[
        "arn:aws:iam::123456789012:saml-provider/okta-idp,arn:aws:iam::123456789012:role/role1",
        "arn:aws:iam::123456789012:saml-provider/okta-idp",
    ])
    .unwrap_err();
    assert!(matches!(err, BrokerError::NotEnoughElements(_)));
}

#[test]
fn rejects_text_that_is_not_base64() {
    let err = parse_assertion("!!! not base64 !!!").unwrap_err();
    assert!(matches!(err, BrokerError::InvalidBase64));
}

#[test]
fn rejects_bytes_that_are_not_utf8() {
    let err = parse_assertion(&base64::encode([0xffu8, 0xfe, 0x00, 0x80])).unwrap_err();
    assert!(matches!(err, BrokerError::InvalidUtf8));
}

#[test]
fn rejects_text_that_is_not_xml() {
    let err = parse_assertion(&base64::encode("this is no xml document")).unwrap_err();
    assert!(matches!(err, BrokerError::InvalidXml));
}

#[test]
fn extracts_the_assertion_from_a_scraped_page() {
    let encoded = base64::encode(saml_xml(&[
        "arn:aws:iam::123456789012:saml-provider/okta-idp,arn:aws:iam::123456789012:role/role1",
    ]));
    let html = format!(
        r#"<html><body><form><input type="hidden" name="SAMLResponse" value="{}"/></form></body></html>"#,
        encoded
    );
    let response = extract_saml_assertion(&html).unwrap();
    assert_eq!(1, response.roles.len());
    assert_eq!(encoded, response.raw);
}

#[test]
fn a_page_without_the_assertion_field_asks_for_a_retry() {
    let err = extract_saml_assertion("<html><body>please log in again</body></html>").unwrap_err();
    assert!(matches!(err, ExtractSamlResponseError::NotFound));
}

#[test]
fn a_field_without_a_value_fails_hard() {
    let err = extract_saml_assertion(r#"<input name="SAMLResponse"/>"#).unwrap_err();
    assert!(matches!(err, ExtractSamlResponseError::MissingValue));
}

#[test]
fn scrapes_and_unescapes_the_state_token() {
    let page = r#"<script>var stateToken = 'ab\x2Dcd\x2Def';</script>"#;
    assert_eq!("ab-cd-ef", extract_state_token(page).unwrap());
}

#[test]
fn a_page_without_a_state_token_is_refused() {
    assert!(extract_state_token("<html></html>").is_err());
}
