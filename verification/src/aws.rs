//! Cloud-side data: roles parsed from assertion attributes and the shape of
//! the role-assumption exchange.

pub mod credentials;
pub mod role;

use crate::aws::role::Role;
use vstd::prelude::*;

verus! {

/// Region used for the exchange when the environment names none.
pub const AWS_DEFAULT_REGION: &'static str = "us-east-1";

/// The three inputs of the role-assumption operation, as the trust broker
/// takes them: both ARNs and the untouched raw assertion.
pub struct AssumeRoleInputs {
    pub principal_arn: String,
    pub role_arn: String,
    pub saml_assertion: String,
}

/// Builds the request of the role-assumption operation from a chosen role and
/// the raw base64 assertion, which is passed through untouched.
pub fn assume_role_inputs(role: &Role, saml_assertion: String) -> (r: AssumeRoleInputs)
    ensures
        r.principal_arn@ == role.provider_arn@,
        r.role_arn@ == role.role_arn@,
        r.saml_assertion == saml_assertion,
{
    AssumeRoleInputs {
        principal_arn: role.provider_arn.clone(),
        role_arn: role.role_arn.clone(),
        saml_assertion,
    }
}

} // verus!
