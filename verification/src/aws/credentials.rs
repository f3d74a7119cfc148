//! The shared-credentials profile table.
//!
//! Mirrors the profile sections of the shared credentials file: each profile
//! name maps to either session (STS) credentials or long-lived (IAM) keys.
//! Reading and writing the file itself is the caller's business; the table
//! and its update rule are verified here.

use crate::errors::BrokerError;
use crate::text::str_eq;
use vstd::prelude::*;

verus! {

/// Credentials stored under one profile name.
#[derive(Debug, Clone, PartialEq)]
pub enum ProfileCredentials {
    /// Session credentials from an exchange; these may be overwritten.
    Sts { access_key_id: String, secret_access_key: String, session_token: String },
    /// Long-lived keys entered by hand; these are never overwritten.
    Iam { access_key_id: String, secret_access_key: String },
}

impl ProfileCredentials {
    /// Packs the fields of an exchange result as session credentials.
    pub fn from_session_keys(
        access_key_id: String,
        secret_access_key: String,
        session_token: String,
    ) -> (r: ProfileCredentials)
        ensures
            r == (ProfileCredentials::Sts { access_key_id, secret_access_key, session_token }),
    {
        ProfileCredentials::Sts { access_key_id, secret_access_key, session_token }
    }
}

/// The in-memory profile table of the shared credentials file.
pub struct CredentialsStore {
    pub credentials: Vec<(String, ProfileCredentials)>,
}

/// No profile name occurs twice.
pub open spec fn unique_names(s: Seq<(String, ProfileCredentials)>) -> bool {
    forall|i: int, j: int| 0 <= i < j < s.len() ==> s[i].0@ != s[j].0@
}

/// Whether some entry of `s` carries the name `name`.
pub open spec fn has_name(s: Seq<(String, ProfileCredentials)>, name: Seq<char>) -> bool {
    exists|i: int| 0 <= i < s.len() && #[trigger] s[i].0@ == name
}

/// The index of the entry named `name`.
pub open spec fn name_index(s: Seq<(String, ProfileCredentials)>, name: Seq<char>) -> int {
    choose|i: int| 0 <= i < s.len() && #[trigger] s[i].0@ == name
}

impl CredentialsStore {
    /// An empty table.
    pub fn new() -> (r: CredentialsStore)
        ensures
            r.credentials@.len() == 0,
    {
        CredentialsStore { credentials: Vec::new() }
    }

    /// Writes session credentials under `name`. A fresh name is appended; an
    /// existing session entry is replaced; an entry holding long-lived keys
    /// is left alone and refused.
    pub fn set_profile(&mut self, name: String, creds: ProfileCredentials) -> (r: Result<
        (),
        BrokerError,
    >)
        requires
            unique_names(old(self).credentials@),
        ensures
            unique_names(final(self).credentials@),
            !has_name(old(self).credentials@, name@) ==> (r is Ok && final(self).credentials@
                == old(self).credentials@.push((name, creds))),
            has_name(old(self).credentials@, name@) ==> {
                let i = name_index(old(self).credentials@, name@);
                &&& (old(self).credentials@[i].1 is Sts ==> (r is Ok && final(self).credentials@
                    == old(self).credentials@.update(i, (name, creds))))
                &&& (old(self).credentials@[i].1 is Iam ==> (r matches Err(
                    BrokerError::NotStsProfile(t),
                ) && t@ == name@ && final(self).credentials@ == old(self).credentials@))
            },
    {
        let ghost orig = self.credentials@;
        let n = self.credentials.len();
        let mut i: usize = 0;
        while i < n
            invariant
                n == self.credentials@.len(),
                0 <= i <= n,
                self.credentials@ == orig,
                orig == old(self).credentials@,
                unique_names(orig),
                forall|j: int| 0 <= j < i ==> orig[j].0@ != name@,
            decreases n - i,
        {
            if str_eq(self.credentials[i].0.as_str(), name.as_str()) {
                proof {
                    assert(orig[i as int].0@ == name@);
                    assert(has_name(orig, name@));
                    let k = name_index(orig, name@);
                    assert(0 <= k < orig.len() && orig[k].0@ == name@);
                    if k < i as int {
                        assert(orig[k].0@ != orig[i as int].0@);
                    } else if k > i as int {
                        assert(orig[i as int].0@ != orig[k].0@);
                    }
                    assert(k == i as int);
                }
                match self.credentials[i].1 {
                    ProfileCredentials::Sts { .. } => {
                        self.credentials.set(i, (name, creds));
                        return Ok(());
                    },
                    ProfileCredentials::Iam { .. } => {
                        return Err(BrokerError::NotStsProfile(name));
                    },
                }
            }
            i = i + 1;
        }
        proof {
            assert(!has_name(orig, name@));
        }
        self.credentials.push((name, creds));
        Ok(())
    }
}

} // verus!
