//! The closed set of supported identity providers.

pub mod adfs;
pub mod jumpcloud;
pub mod okta;

use crate::errors::BrokerError;
use crate::text::{eq_ignore_ascii_case, lower_bytes};
use vstd::prelude::*;
use vstd::string::StringSliceAdditionalSpecFns;

verus! {

/// Byte equality of two strings once ASCII letters are lowered.
pub open spec fn same_name_nocase(s: &str, t: &str) -> bool {
    lower_bytes(s.spec_bytes()) == lower_bytes(t.spec_bytes())
}

/// Which identity provider a profile logs in through.
#[derive(Debug, Clone, Copy, PartialEq, Eq, Structural)]
pub enum ProviderType {
    Okta,
    Jumpcloud,
    Adfs,
}

impl ProviderType {
    /// Parses a provider name, ignoring ASCII case; any other name is
    /// refused.
    pub fn from_name(s: &str) -> (r: Result<ProviderType, BrokerError>)
        ensures
            same_name_nocase(s, "okta") ==> r == Ok::<ProviderType, BrokerError>(
                ProviderType::Okta,
            ),
            !same_name_nocase(s, "okta") && same_name_nocase(s, "jumpcloud") ==> r == Ok::<
                ProviderType,
                BrokerError,
            >(ProviderType::Jumpcloud),
            !same_name_nocase(s, "okta") && !same_name_nocase(s, "jumpcloud") && same_name_nocase(
                s,
                "adfs",
            ) ==> r == Ok::<ProviderType, BrokerError>(ProviderType::Adfs),
            r is Err ==> (r matches Err(BrokerError::UnknownProvider)) && !same_name_nocase(
                s,
                "okta",
            ) && !same_name_nocase(s, "jumpcloud") && !same_name_nocase(s, "adfs"),
    {
        if eq_ignore_ascii_case(s, "okta") {
            Ok(ProviderType::Okta)
        } else if eq_ignore_ascii_case(s, "jumpcloud") {
            Ok(ProviderType::Jumpcloud)
        } else if eq_ignore_ascii_case(s, "adfs") {
            Ok(ProviderType::Adfs)
        } else {
            Err(BrokerError::UnknownProvider)
        }
    }

    /// The canonical lower-case name of the provider.
    pub fn name_text(&self) -> (r: &'static str)
        ensures
            *self is Okta ==> r@ == "okta"@,
            *self is Jumpcloud ==> r@ == "jumpcloud"@,
            *self is Adfs ==> r@ == "adfs"@,
    {
        match self {
            ProviderType::Okta => "okta",
            ProviderType::Jumpcloud => "jumpcloud",
            ProviderType::Adfs => "adfs",
        }
    }
}

} // verus!
