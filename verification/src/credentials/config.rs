//! The cached identity-provider password of a profile.

use crate::config::app::{
    sha256_of, spec_base_url, spec_identifier_input, url_scheme_host, AppProfile,
};
use crate::credentials::{service_string, Credential, CredentialType, SecretStore};
use crate::errors::BrokerError;
use crate::text::spec_hex_lower;
use vstd::prelude::*;
use vstd::utf8::encode_utf8;

verus! {

/// The password a profile logs in with, cached in the secret store under the
/// profile's hashed identifier.
#[derive(Debug, Clone, PartialEq)]
pub struct ConfigCredentials {
    pub credential_type: CredentialType,
    pub password: String,
}

impl Default for ConfigCredentials {
    /// An empty password.
    fn default() -> (r: ConfigCredentials)
        ensures
            r.credential_type is Config,
            r.password@ == Seq::<char>::empty(),
    {
        ConfigCredentials { credential_type: CredentialType::Config, password: String::new() }
    }
}

impl ConfigCredentials {
    /// Wraps a password the operator has just entered.
    pub fn from_password(password: String) -> (r: ConfigCredentials)
        ensures
            r.credential_type is Config,
            r.password == password,
    {
        ConfigCredentials { credential_type: CredentialType::Config, password }
    }
}

/// The service string a profile's password is cached under: the `config`
/// kind and the profile's hashed identifier.
pub open spec fn spec_config_service(profile: AppProfile) -> Seq<char> {
    "crowbar::"@ + "config"@ + "::"@ + spec_hex_lower(
        sha256_of(
            encode_utf8(spec_identifier_input(spec_base_url(profile.url@)->0, profile.username@)),
        ),
    )
}

/// The service string a profile's password is cached under, built from the
/// hashed identifier so raw identifiers never leak into store keys.
pub fn profile_as_service(profile: &AppProfile) -> (r: Result<String, BrokerError>)
    ensures
        r is Err <==> url_scheme_host(profile.url@) is None,
        r matches Err(e) ==> e is InvalidUrl,
        r matches Ok(s) ==> s@ == spec_config_service(*profile),
{
    let id = profile.identifier()?;
    Ok(service_string(CredentialType::Config, id.as_str()))
}

impl Credential<AppProfile, ConfigCredentials> for ConfigCredentials {
    /// Loads the cached password from under the profile's identifier; a
    /// missing entry is a store failure naming the username, since a password
    /// cannot be invented. Against a store that tracks its model, the
    /// password is exactly what the model holds.
    fn load<S: SecretStore>(profile: &AppProfile, store: &S) -> (r: Result<
        ConfigCredentials,
        BrokerError,
    >)
        ensures
            url_scheme_host(profile.url@) is None ==> (r matches Err(e) && e is InvalidUrl),
            r matches Ok(c) ==> c.credential_type is Config,
            r matches Err(e) ==> e is InvalidUrl || (e matches BrokerError::SecretStoreFailure(u)
                && u@ == profile.username@),
            store.tracks_model() && url_scheme_host(profile.url@) is Some ==> ({
                let slot = (spec_config_service(*profile), profile.username@);
                if store.model().contains_key(slot) {
                    r matches Ok(c) && c.credential_type is Config && c.password@ == store.model()[
                        slot
                    ]
                } else {
                    r matches Err(e) && (e matches BrokerError::SecretStoreFailure(u) && u@
                        == profile.username@)
                }
            }),
    {
        let service = profile_as_service(profile)?;
        match store.get_secret(service.as_str(), profile.username.as_str()) {
            Some(password) => Ok(ConfigCredentials::from_password(password)),
            None => Err(BrokerError::SecretStoreFailure(profile.username.clone())),
        }
    }

    /// Writes the password under the profile's identifier. Against a store
    /// that tracks its model, exactly the password's slot is overwritten.
    fn write<S: SecretStore>(self, profile: &AppProfile, store: &mut S) -> (r: Result<
        ConfigCredentials,
        BrokerError,
    >)
        ensures
            url_scheme_host(profile.url@) is None ==> (r matches Err(e) && e is InvalidUrl),
            r matches Ok(c) ==> c == self,
            r matches Err(e) ==> e is InvalidUrl || (e matches BrokerError::SecretStoreFailure(u)
                && u@ == profile.username@),
            old(store).tracks_model() && url_scheme_host(profile.url@) is Some ==> (r matches Ok(c)
                && c == self && final(store).tracks_model() && final(store).model() == old(
                store,
            ).model().insert((spec_config_service(*profile), profile.username@), self.password@)),
    {
        let service = profile_as_service(profile)?;
        let ok = store.set_secret(
            service.as_str(),
            profile.username.as_str(),
            self.password.as_str(),
        );
        if ok {
            Ok(self)
        } else {
            Err(BrokerError::SecretStoreFailure(profile.username.clone()))
        }
    }

    /// Removes the cached password, if the store still holds one. Against a
    /// store that tracks its model, the password's slot is gone afterwards.
    fn delete<S: SecretStore>(self, profile: &AppProfile, store: &mut S) -> (r: Result<
        ConfigCredentials,
        BrokerError,
    >)
        ensures
            url_scheme_host(profile.url@) is None ==> (r matches Err(e) && e is InvalidUrl),
            r matches Ok(c) ==> c == self,
            r matches Err(e) ==> e is InvalidUrl || (e matches BrokerError::SecretStoreFailure(u)
                && u@ == profile.username@),
            old(store).tracks_model() && url_scheme_host(profile.url@) is Some ==> (r matches Ok(c)
                && c == self && final(store).tracks_model() && final(store).model() == old(
                store,
            ).model().remove((spec_config_service(*profile), profile.username@))),
    {
        let ghost m0 = store.model();
        let service = profile_as_service(profile)?;
        if store.get_secret(service.as_str(), profile.username.as_str()).is_some() {
            let ok = store.delete_secret(service.as_str(), profile.username.as_str());
            if !ok {
                return Err(BrokerError::SecretStoreFailure(profile.username.clone()));
            }
        }
        proof {
            if old(store).tracks_model() {
                assert(store.model() =~= m0.remove((service@, profile.username@)));
            }
        }
        Ok(self)
    }
}

} // verus!
