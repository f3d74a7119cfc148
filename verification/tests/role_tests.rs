use crowbar::aws::role::Role;
use crowbar::errors::BrokerError;

fn create_role() -> Role {
    Role {
        provider_arn: "arn:aws:iam::123456789012:saml-provider/okta-idp".to_string(),
        role_arn: "arn:aws:iam::123456789012:role/role1".to_string(),
    }
}

#[test]
fn parse_attribute() {
    let attribute =
        "arn:aws:iam::123456789012:saml-provider/okta-idp,arn:aws:iam::123456789012:role/role1";

    let expected_role = create_role();

    assert_eq!(attribute.parse::<Role>().unwrap(), expected_role);
}

#[test]
fn expected_string_output_for_role() {
    assert_eq!(
        "arn:aws:iam::123456789012:role/role1",
        create_role().display_string()
    )
}

#[test]
fn parse_attribute_swapped_order_gives_same_role() {
    let forward =
        "arn:aws:iam::123456789012:saml-provider/okta-idp,arn:aws:iam::123456789012:role/role1";
    let swapped =
        "arn:aws:iam::123456789012:role/role1,arn:aws:iam::123456789012:saml-provider/okta-idp";

    assert_eq!(
        Role::from_attribute(forward).unwrap(),
        Role::from_attribute(swapped).unwrap()
    );
    assert_eq!(Role::from_attribute(forward).unwrap(), create_role());
}

#[test]
fn parse_attribute_trims_fields() {
    let attribute = " arn:aws:iam::123456789012:saml-provider/okta-idp , arn:aws:iam::123456789012:role/role1 ";
    assert_eq!(Role::from_attribute(attribute).unwrap(), create_role());
}

#[test]
fn parse_attribute_with_one_field_fails() {
    let attribute = "arn:aws:iam::123456789012:saml-provider/okta-idp";
    let err = Role::from_attribute(attribute).unwrap_err();
    assert!(matches!(err, BrokerError::NotEnoughElements(_)));
    assert_eq!(
        err.message(),
        "Not enough elements in arn:aws:iam::123456789012:saml-provider/okta-idp"
    );
}

#[test]
fn parse_attribute_with_three_fields_fails() {
    let attribute = "a,b,c";
    let err = Role::from_attribute(attribute).unwrap_err();
    assert!(matches!(err, BrokerError::TooManyElements(_)));
}

#[test]
fn parse_attribute_without_role_marker_fails() {
    let attribute = "arn:aws:iam::123456789012:saml-provider/a,arn:aws:iam::123456789012:saml-provider/b";
    let err = Role::from_attribute(attribute).unwrap_err();
    assert!(matches!(err, BrokerError::AmbiguousRolePair(_)));
}

#[test]
fn role_name_is_the_part_after_the_slash() {
    assert_eq!("role1", create_role().role_name().unwrap());
}

#[test]
fn role_name_without_slash_fails() {
    let role = Role {
        provider_arn: "p".to_string(),
        role_arn: "no-slash-here".to_string(),
    };
    assert!(role.role_name().is_err());
}
