//! Profiles: which provider to log in through, as whom, and where.

use crate::errors::BrokerError;
use crate::providers::ProviderType;
use crate::text::{clone_opt_string, spec_hex_lower, str_eq, to_hex_lower};
use sha2::Digest;
use vstd::prelude::*;
use vstd::string::{StringExecFns, StringSliceAdditionalSpecFns};
use vstd::utf8::encode_utf8;

verus! {

/// One configured profile. Immutable for a run; it selects the provider
/// adapter and the cache slot.
#[derive(Debug, Clone, PartialEq)]
pub struct AppProfile {
    pub name: String,
    pub provider: ProviderType,
    pub username: String,
    pub url: String,
    pub role: Option<String>,
}

/// The scheme and host a URL string carries; nothing when the string does not
/// parse as a URL or names no host.
pub uninterp spec fn url_scheme_host(s: Seq<char>) -> Option<(Seq<char>, Seq<char>)>;

/// Relies on url::Url::parse, Url::scheme and Url::host_str: scheme and host
/// of a URL string, a function of the string alone.
#[verifier::external_body]
fn parse_scheme_host(s: &str) -> (r: Option<(String, String)>)
    ensures
        r matches Some(p) ==> url_scheme_host(s@) == Some((p.0@, p.1@)),
        r is None ==> url_scheme_host(s@) is None,
{
    match url::Url::parse(s) {
        Ok(u) => match u.host_str() {
            Some(h) => Some((u.scheme().to_owned(), h.to_owned())),
            None => None,
        },
        Err(_) => None,
    }
}

/// The SHA-256 digest of a byte string.
pub uninterp spec fn sha256_of(data: Seq<u8>) -> Seq<u8>;

/// Relies on sha2::Sha256: the SHA-256 digest of the input, a function of the
/// input alone; a digest is 32 bytes long.
#[verifier::external_body]
fn sha256_digest(data: &[u8]) -> (r: Vec<u8>)
    ensures
        r@ == sha256_of(data@),
        r@.len() == 32,
{
    sha2::Sha256::digest(data).as_slice().to_vec()
}

/// The base URL of a profile: its scheme and host, nothing more.
pub open spec fn spec_base_url(url: Seq<char>) -> Option<Seq<char>> {
    match url_scheme_host(url) {
        Some(p) => Some(p.0 + "://"@ + p.1),
        None => None,
    }
}

/// What the stable cache identifier of a profile hashes: the base URL and the
/// username, joined by a dash.
pub open spec fn spec_identifier_input(base: Seq<char>, username: Seq<char>) -> Seq<char> {
    base + "-"@ + username
}

impl AppProfile {
    /// Whether this profile carries the given name.
    pub fn is_profile(&self, profile: &str) -> (r: bool)
        ensures
            r == (self.name@ == profile@),
    {
        str_eq(self.name.as_str(), profile)
    }

    /// The configured login URL, checked to be a parseable URL with a host.
    pub fn request_url(&self) -> (r: Result<String, BrokerError>)
        ensures
            url_scheme_host(self.url@) is Some ==> (r matches Ok(u) && u@ == self.url@),
            url_scheme_host(self.url@) is None ==> r matches Err(BrokerError::InvalidUrl),
    {
        match parse_scheme_host(self.url.as_str()) {
            Some(_) => Ok(self.url.clone()),
            None => Err(BrokerError::InvalidUrl),
        }
    }

    /// The scheme-and-host part of the login URL.
    pub fn base_url(&self) -> (r: Result<String, BrokerError>)
        ensures
            r matches Ok(b) ==> spec_base_url(self.url@) == Some(b@),
            r is Err <==> url_scheme_host(self.url@) is None,
            r matches Err(e) ==> e is InvalidUrl,
    {
        match parse_scheme_host(self.url.as_str()) {
            Some(p) => Ok(p.0.concat("://").concat(p.1.as_str())),
            None => Err(BrokerError::InvalidUrl),
        }
    }

    /// The stable identifier under which this profile's secrets are cached:
    /// the SHA-256 of base URL and username, in lower-case hex, so that raw
    /// identifiers never leak into store keys.
    pub fn identifier(&self) -> (r: Result<String, BrokerError>)
        ensures
            r matches Ok(h) ==> (spec_base_url(self.url@) matches Some(b) && h@ == spec_hex_lower(
                sha256_of(encode_utf8(spec_identifier_input(b, self.username@))),
            )),
            r is Err <==> url_scheme_host(self.url@) is None,
            r matches Err(e) ==> e is InvalidUrl,
    {
        let base = self.base_url()?;
        let joined = base.concat("-").concat(self.username.as_str());
        let digest = sha256_digest(joined.as_str().as_bytes());
        Ok(to_hex_lower(digest.as_slice()))
    }

    /// A field-for-field copy of the profile.
    pub fn duplicate(&self) -> (r: AppProfile)
        ensures
            r == *self,
    {
        AppProfile {
            name: self.name.clone(),
            provider: self.provider,
            username: self.username.clone(),
            url: self.url.clone(),
            role: clone_opt_string(&self.role),
        }
    }
}

} // verus!
