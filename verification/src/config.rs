//! The broker's own profile configuration.
//!
//! Holds the list of profiles and the rules for adding, finding and deleting
//! them. Reading the list from disk and writing it back is the caller's
//! business.

pub mod app;
pub mod aws;

use crate::config::app::AppProfile;
use crate::errors::BrokerError;
use vstd::prelude::*;

verus! {

/// Whether some profile in `s` carries the name `name`.
pub open spec fn spec_has_profile(s: Seq<AppProfile>, name: Seq<char>) -> bool {
    exists|i: int| 0 <= i < s.len() && #[trigger] s[i].name@ == name
}

/// The profiles of `s` that do not carry the name `name`.
pub open spec fn spec_without_profile(s: Seq<AppProfile>, name: Seq<char>) -> Seq<AppProfile> {
    s.filter(|p: AppProfile| p.name@ != name)
}

/// The configured profile list, and where it came from.
#[derive(Debug, Clone)]
pub struct CrowbarConfig {
    pub profiles: Vec<AppProfile>,
    pub location: Option<String>,
}

impl Default for CrowbarConfig {
    /// An empty configuration from the default location.
    fn default() -> (r: CrowbarConfig)
        ensures
            r.profiles@.len() == 0,
            r.location is None,
    {
        CrowbarConfig { profiles: Vec::new(), location: None }
    }
}

impl CrowbarConfig {
    /// An empty configuration from the default location.
    pub fn new() -> (r: CrowbarConfig)
        ensures
            r.profiles@.len() == 0,
            r.location is None,
    {
        CrowbarConfig { profiles: Vec::new(), location: None }
    }

    /// An empty configuration read from the given location.
    pub fn with_location(location: Option<String>) -> (r: CrowbarConfig)
        ensures
            r.profiles@.len() == 0,
            r.location == location,
    {
        CrowbarConfig { profiles: Vec::new(), location }
    }

    /// Adds a profile. A second profile under an existing name is refused:
    /// only the name decides, the other fields play no part.
    pub fn add_profile(self, profile: &AppProfile) -> (r: Result<CrowbarConfig, BrokerError>)
        ensures
            !spec_has_profile(self.profiles@, profile.name@) ==> (r matches Ok(c) && c.profiles@
                == self.profiles@.push(*profile) && c.location == self.location),
            spec_has_profile(self.profiles@, profile.name@) ==> (r matches Err(
                BrokerError::DuplicateProfile(t),
            ) && t@ == profile.name@),
    {
        if find_duplicate(self.profiles.as_slice(), profile) {
            Err(BrokerError::DuplicateProfile(profile.name.clone()))
        } else {
            let mut profiles = self.profiles;
            profiles.push(profile.duplicate());
            Ok(CrowbarConfig { profiles, location: self.location })
        }
    }

    /// Deletes every profile of the given name. A name that matches nothing
    /// is an error and the configuration is handed back unchanged.
    pub fn delete_profile(self, profile_name: &str) -> (r: Result<CrowbarConfig, BrokerError>)
        ensures
            spec_has_profile(self.profiles@, profile_name@) ==> (r matches Ok(c) && c.profiles@
                == spec_without_profile(self.profiles@, profile_name@) && c.location
                == self.location),
            !spec_has_profile(self.profiles@, profile_name@) ==> r matches Err(
                BrokerError::ProfileNotFound,
            ),
    {
        let ghost orig = self.profiles@;
        let n = self.profiles.len();
        let mut kept: Vec<AppProfile> = Vec::new();
        let mut found: bool = false;
        let mut i: usize = 0;
        proof {
            assert(orig.take(0) =~= Seq::<AppProfile>::empty());
            assert(orig.take(0).filter(|p: AppProfile| p.name@ != profile_name@)
                =~= Seq::<AppProfile>::empty());
        }
        while i < n
            invariant
                n == self.profiles@.len(),
                self.profiles@ == orig,
                0 <= i <= n,
                kept@ == orig.take(i as int).filter(|p: AppProfile| p.name@ != profile_name@),
                found == spec_has_profile(orig.take(i as int), profile_name@),
            decreases n - i,
        {
            let p = &self.profiles[i];
            proof {
                assert(orig.take(i + 1).drop_last() =~= orig.take(i as int));
                assert(orig.take(i + 1).last() == orig[i as int]);
                reveal(Seq::filter);
            }
            if p.is_profile(profile_name) {
                found = true;
                proof {
                    assert(orig.take(i + 1)[i as int].name@ == profile_name@);
                }
            } else {
                kept.push(p.duplicate());
            }
            proof {
                assert(spec_has_profile(orig.take(i + 1), profile_name@) == (spec_has_profile(
                    orig.take(i as int),
                    profile_name@,
                ) || orig[i as int].name@ == profile_name@)) by {
                    if spec_has_profile(orig.take(i as int), profile_name@) {
                        let w = choose|k: int|
                            0 <= k < i && #[trigger] orig.take(i as int)[k].name@ == profile_name@;
                        assert(orig.take(i + 1)[w].name@ == profile_name@);
                    }
                    if spec_has_profile(orig.take(i + 1), profile_name@) {
                        let w = choose|k: int|
                            0 <= k < i + 1 && #[trigger] orig.take(i + 1)[k].name@ == profile_name@;
                        if w < i {
                            assert(orig.take(i as int)[w].name@ == profile_name@);
                        }
                    }
                }
            }
            i = i + 1;
        }
        proof {
            assert(orig.take(n as int) =~= orig);
        }
        if found {
            Ok(CrowbarConfig { profiles: kept, location: self.location })
        } else {
            Err(BrokerError::ProfileNotFound)
        }
    }

    /// The first profile of the given name. An empty or non-matching
    /// configuration yields the error the broker reports before any login.
    pub fn select_profile(&self, name: &str) -> (r: Result<AppProfile, BrokerError>)
        ensures
            spec_has_profile(self.profiles@, name@) ==> (r matches Ok(p) && p.name@ == name@
                && self.profiles@.contains(p)),
            !spec_has_profile(self.profiles@, name@) ==> r matches Err(
                BrokerError::NoProfilesConfigured,
            ),
    {
        let n = self.profiles.len();
        let mut i: usize = 0;
        while i < n
            invariant
                n == self.profiles@.len(),
                0 <= i <= n,
                forall|j: int| 0 <= j < i ==> #[trigger] self.profiles@[j].name@ != name@,
            decreases n - i,
        {
            let p = &self.profiles[i];
            if p.is_profile(name) {
                let out = p.duplicate();
                proof {
                    assert(self.profiles@[i as int].name@ == name@);
                    assert(self.profiles@.contains(out));
                }
                return Ok(out);
            }
            i = i + 1;
        }
        Err(BrokerError::NoProfilesConfigured)
    }
}

/// Whether the list already holds a profile of the same name; only the name
/// is compared, never the other fields.
pub fn find_duplicate(vec: &[AppProfile], profile: &AppProfile) -> (r: bool)
    ensures
        r == spec_has_profile(vec@, profile.name@),
{
    let n = vec.len();
    let mut i: usize = 0;
    while i < n
        invariant
            n == vec@.len(),
            0 <= i <= n,
            forall|j: int| 0 <= j < i ==> #[trigger] vec@[j].name@ != profile.name@,
        decreases n - i,
    {
        if vec[i].is_profile(profile.name.as_str()) {
            proof {
                assert(vec@[i as int].name@ == profile.name@);
            }
            return true;
        }
        i = i + 1;
    }
    false
}

} // verus!
