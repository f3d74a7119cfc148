//! Credential storage.
//!
//! The cache talks to the platform secret store through a narrow capability
//! — get, set and delete of a string under a service and a key — so the
//! verified cache logic is independent of the real keychain. A store carries
//! a ghost model of its contents; a store that *tracks* that model answers
//! exactly from it, and the cache's rules are then theorems. `MemoryStore`
//! tracks its model and proves it; the platform-backed `KeyringStore` is
//! shared mutable state and honestly tracks nothing.

pub mod aws;
pub mod config;

use crate::text::str_eq;
use vstd::map::*;
use vstd::prelude::*;
use vstd::string::StringExecFns;

verus! {

/// Which of the two cached secrets a store key belongs to: the provider
/// password, or exchanged cloud credentials.
#[derive(Debug, Clone, Copy, PartialEq, Eq, Structural)]
pub enum CredentialType {
    Config,
    Aws,
}

impl CredentialType {
    /// The text of this kind in store keys.
    pub fn as_text(&self) -> (r: &'static str)
        ensures
            *self is Config ==> r@ == "config"@,
            *self is Aws ==> r@ == "aws"@,
    {
        match self {
            CredentialType::Config => "config",
            CredentialType::Aws => "aws",
        }
    }
}

/// The service string secrets of one kind and one identity live under.
pub fn service_string(kind: CredentialType, id: &str) -> (r: String)
    ensures
        kind is Config ==> r@ == "crowbar::"@ + "config"@ + "::"@ + id@,
        kind is Aws ==> r@ == "crowbar::"@ + "aws"@ + "::"@ + id@,
{
    "crowbar::".to_owned().concat(kind.as_text()).concat("::").concat(id)
}

/// The narrow capability the cache needs from a secret store: string values
/// under a service and a key. A store that tracks its model answers exactly
/// from it; one that does not promises nothing of the values.
pub trait SecretStore {
    /// The store's contents: string values under (service, key) pairs.
    spec fn model(&self) -> Map<(Seq<char>, Seq<char>), Seq<char>>;

    /// Whether the store's answers are tied to `model`.
    spec fn tracks_model(&self) -> bool;

    /// The value stored under the service and key, if any.
    fn get_secret(&self, service: &str, key: &str) -> (r: Option<String>)
        ensures
            self.tracks_model() ==> (match r {
                Some(v) => self.model().contains_key((service@, key@)) && v@ == self.model()[
                    (service@, key@)
                ],
                None => !self.model().contains_key((service@, key@)),
            }),
    ;

    /// Stores a value; reports whether the store accepted it.
    fn set_secret(&mut self, service: &str, key: &str, value: &str) -> (r: bool)
        ensures
            old(self).tracks_model() ==> (r && final(self).tracks_model() && final(self).model()
                == old(self).model().insert((service@, key@), value@)),
    ;

    /// Removes a value; reports whether the store held one.
    fn delete_secret(&mut self, service: &str, key: &str) -> (r: bool)
        ensures
            old(self).tracks_model() ==> (r == old(self).model().contains_key((service@, key@))
                && final(self).tracks_model() && final(self).model() == old(self).model().remove(
                (service@, key@),
            )),
    ;
}

/// An in-memory store: entries of (service, key, value).
pub struct MemoryStore {
    pub entries: Vec<(String, String, String)>,
}

/// No two entries share a (service, key) pair.
pub open spec fn unique_store_keys(s: Seq<(String, String, String)>) -> bool {
    forall|i: int, j: int|
        #![trigger s[i], s[j]]
        0 <= i < j < s.len() ==> !(s[i].0@ == s[j].0@ && s[i].1@ == s[j].1@)
}

/// The entry at index `i` lives under the pair `k`.
pub open spec fn entry_key_is(e: (String, String, String), k: (Seq<char>, Seq<char>)) -> bool {
    e.0@ == k.0 && e.1@ == k.1
}

impl MemoryStore {
    /// An empty store; it tracks its model from the start.
    pub fn new() -> (r: MemoryStore)
        ensures
            r.entries@.len() == 0,
            r.tracks_model(),
            r.model() == Map::<(Seq<char>, Seq<char>), Seq<char>>::empty(),
    {
        let r = MemoryStore { entries: Vec::new() };
        proof {
            assert(r.model() =~= Map::<(Seq<char>, Seq<char>), Seq<char>>::empty());
        }
        r
    }
}

impl SecretStore for MemoryStore {
    open spec fn model(&self) -> Map<(Seq<char>, Seq<char>), Seq<char>> {
        model_of(self.entries@)
    }

    open spec fn tracks_model(&self) -> bool {
        unique_store_keys(self.entries@)
    }

    fn get_secret(&self, service: &str, key: &str) -> (r: Option<String>) {
        let n = self.entries.len();
        let mut i: usize = 0;
        while i < n
            invariant
                n == self.entries@.len(),
                0 <= i <= n,
                forall|k: int|
                    0 <= k < i ==> !entry_key_is(#[trigger] self.entries@[k], (service@, key@)),
            decreases n - i,
        {
            let entry = &self.entries[i];
            if str_eq(entry.0.as_str(), service) && str_eq(entry.1.as_str(), key) {
                proof {
                    assert(entry_key_is(self.entries@[i as int], (service@, key@)));
                    assert(self.model().contains_key((service@, key@)));
                    if self.tracks_model() {
                        let w = choose|w: int|
                            0 <= w < self.entries@.len() && entry_key_is(
                                #[trigger] self.entries@[w],
                                (service@, key@),
                            );
                        if w < i as int {
                            assert(!(self.entries@[w].0@ == self.entries@[i as int].0@
                                && self.entries@[w].1@ == self.entries@[i as int].1@));
                        } else if w > i as int {
                            assert(!(self.entries@[i as int].0@ == self.entries@[w].0@
                                && self.entries@[i as int].1@ == self.entries@[w].1@));
                        }
                        assert(w == i as int);
                        assert(self.model()[(service@, key@)] == self.entries@[i as int].2@);
                    }
                }
                return Some(entry.2.clone());
            }
            i = i + 1;
        }
        proof {
            if self.model().contains_key((service@, key@)) {
                let w = choose|w: int|
                    0 <= w < self.entries@.len() && entry_key_is(
                        #[trigger] self.entries@[w],
                        (service@, key@),
                    );
                assert(!entry_key_is(self.entries@[w], (service@, key@)));
            }
        }
        None
    }

    fn set_secret(&mut self, service: &str, key: &str, value: &str) -> (r: bool) {
        let ghost orig = self.entries@;
        let n = self.entries.len();
        let mut i: usize = 0;
        while i < n
            invariant
                n == self.entries@.len(),
                self.entries@ == orig,
                orig == old(self).entries@,
                0 <= i <= n,
                forall|k: int| 0 <= k < i ==> !entry_key_is(#[trigger] orig[k], (service@, key@)),
            decreases n - i,
        {
            let entry = &self.entries[i];
            if str_eq(entry.0.as_str(), service) && str_eq(entry.1.as_str(), key) {
                self.entries.set(i, (service.to_owned(), key.to_owned(), value.to_owned()));
                proof {
                    if unique_store_keys(orig) {
                        lemma_model_after_update(orig, self.entries@, i as int, (service@, key@), value@);
                        assert(old(self).model() == model_of(orig));
                        assert(self.model() == model_of(self.entries@));
                    }
                }
                return true;
            }
            i = i + 1;
        }
        self.entries.push((service.to_owned(), key.to_owned(), value.to_owned()));
        proof {
            if unique_store_keys(orig) {
                lemma_model_after_push(orig, self.entries@, (service@, key@), value@);
                assert(old(self).model() == model_of(orig));
                assert(self.model() == model_of(self.entries@));
            }
        }
        true
    }

    fn delete_secret(&mut self, service: &str, key: &str) -> (r: bool) {
        let ghost orig = self.entries@;
        let n = self.entries.len();
        let mut i: usize = 0;
        while i < n
            invariant
                n == self.entries@.len(),
                self.entries@ == orig,
                orig == old(self).entries@,
                0 <= i <= n,
                forall|k: int| 0 <= k < i ==> !entry_key_is(#[trigger] orig[k], (service@, key@)),
            decreases n - i,
        {
            let entry = &self.entries[i];
            if str_eq(entry.0.as_str(), service) && str_eq(entry.1.as_str(), key) {
                self.entries.remove(i);
                proof {
                    if unique_store_keys(orig) {
                        assert(entry_key_is(orig[i as int], (service@, key@)));
                        assert(model_of(orig).contains_key((service@, key@)));
                        lemma_model_after_remove(orig, self.entries@, i as int, (service@, key@));
                        assert(old(self).model() == model_of(orig));
                        assert(self.model() == model_of(self.entries@));
                    }
                }
                return true;
            }
            i = i + 1;
        }
        proof {
            if unique_store_keys(orig) {
                if model_of(orig).contains_key((service@, key@)) {
                    let w = choose|w: int|
                        0 <= w < orig.len() && entry_key_is(#[trigger] orig[w], (service@, key@));
                    assert(!entry_key_is(orig[w], (service@, key@)));
                }
                assert(model_of(orig).remove((service@, key@)) =~= model_of(orig));
            }
        }
        false
    }
}

/// The contents an entry list denotes, where its keys are unique.
pub open spec fn model_of(s: Seq<(String, String, String)>) -> Map<
    (Seq<char>, Seq<char>),
    Seq<char>,
> {
    Map::new(
        |k: (Seq<char>, Seq<char>)|
            exists|i: int| 0 <= i < s.len() && entry_key_is(#[trigger] s[i], k),
        |k: (Seq<char>, Seq<char>)|
            {
                let i = choose|i: int| 0 <= i < s.len() && entry_key_is(#[trigger] s[i], k);
                s[i].2@
            },
    )
}

proof fn lemma_unique_value(s: Seq<(String, String, String)>, k: (Seq<char>, Seq<char>), i: int)
    requires
        unique_store_keys(s),
        0 <= i < s.len(),
        entry_key_is(s[i], k),
    ensures
        model_of(s).contains_key(k),
        model_of(s)[k] == s[i].2@,
{
    let w = choose|w: int| 0 <= w < s.len() && entry_key_is(#[trigger] s[w], k);
    if w < i {
        assert(!(s[w].0@ == s[i].0@ && s[w].1@ == s[i].1@));
    } else if w > i {
        assert(!(s[i].0@ == s[w].0@ && s[i].1@ == s[w].1@));
    }
}

proof fn lemma_model_after_update(
    orig: Seq<(String, String, String)>,
    updated: Seq<(String, String, String)>,
    i: int,
    k: (Seq<char>, Seq<char>),
    v: Seq<char>,
)
    requires
        unique_store_keys(orig),
        0 <= i < orig.len(),
        entry_key_is(orig[i], k),
        updated.len() == orig.len(),
        entry_key_is(updated[i], k),
        updated[i].2@ == v,
        forall|j: int| 0 <= j < orig.len() && j != i ==> updated[j] == orig[j],
    ensures
        unique_store_keys(updated),
        model_of(updated) == model_of(orig).insert(k, v),
{
    assert forall|a: int, b: int|
        #![trigger updated[a], updated[b]]
        0 <= a < b < updated.len() implies !(updated[a].0@ == updated[b].0@ && updated[a].1@
        == updated[b].1@) by {
        assert(orig[a].0@ == updated[a].0@ && orig[a].1@ == updated[a].1@);
        assert(orig[b].0@ == updated[b].0@ && orig[b].1@ == updated[b].1@);
    }
    assert(model_of(updated) =~= model_of(orig).insert(k, v)) by {
        assert forall|kk: (Seq<char>, Seq<char>)|
            model_of(updated).contains_key(kk) == model_of(orig).insert(k, v).contains_key(
                kk,
            ) by {
            if kk == k {
                assert(entry_key_is(updated[i], kk));
            } else {
                if model_of(updated).contains_key(kk) {
                    let w = choose|w: int|
                        0 <= w < updated.len() && entry_key_is(#[trigger] updated[w], kk);
                    assert(w != i);
                    assert(entry_key_is(orig[w], kk));
                }
                if model_of(orig).contains_key(kk) {
                    let w = choose|w: int|
                        0 <= w < orig.len() && entry_key_is(#[trigger] orig[w], kk);
                    assert(w != i);
                    assert(entry_key_is(updated[w], kk));
                }
            }
        }
        assert forall|kk: (Seq<char>, Seq<char>)|
            #![auto]
            model_of(updated).contains_key(kk) implies model_of(updated)[kk] == model_of(
            orig,
        ).insert(k, v)[kk] by {
            if kk == k {
                lemma_unique_value(updated, kk, i);
            } else {
                let w = choose|w: int|
                    0 <= w < updated.len() && entry_key_is(#[trigger] updated[w], kk);
                assert(w != i);
                assert(entry_key_is(orig[w], kk));
                lemma_unique_value(updated, kk, w);
                lemma_unique_value(orig, kk, w);
            }
        }
    }
}

proof fn lemma_model_after_push(
    orig: Seq<(String, String, String)>,
    pushed: Seq<(String, String, String)>,
    k: (Seq<char>, Seq<char>),
    v: Seq<char>,
)
    requires
        unique_store_keys(orig),
        forall|j: int| 0 <= j < orig.len() ==> !entry_key_is(#[trigger] orig[j], k),
        pushed.len() == orig.len() + 1,
        entry_key_is(pushed[orig.len() as int], k),
        pushed[orig.len() as int].2@ == v,
        forall|j: int| 0 <= j < orig.len() ==> pushed[j] == orig[j],
    ensures
        unique_store_keys(pushed),
        model_of(pushed) == model_of(orig).insert(k, v),
{
    let m = orig.len() as int;
    assert forall|a: int, b: int|
        #![trigger pushed[a], pushed[b]]
        0 <= a < b < pushed.len() implies !(pushed[a].0@ == pushed[b].0@ && pushed[a].1@
        == pushed[b].1@) by {
        if b < m {
            assert(orig[a].0@ == pushed[a].0@ && orig[a].1@ == pushed[a].1@);
            assert(orig[b].0@ == pushed[b].0@ && orig[b].1@ == pushed[b].1@);
        } else {
            assert(!entry_key_is(orig[a], k));
        }
    }
    assert(model_of(pushed) =~= model_of(orig).insert(k, v)) by {
        assert forall|kk: (Seq<char>, Seq<char>)|
            model_of(pushed).contains_key(kk) == model_of(orig).insert(k, v).contains_key(kk) by {
            if kk == k {
                assert(entry_key_is(pushed[m], kk));
            } else {
                if model_of(pushed).contains_key(kk) {
                    let w = choose|w: int|
                        0 <= w < pushed.len() && entry_key_is(#[trigger] pushed[w], kk);
                    assert(w != m);
                    assert(entry_key_is(orig[w], kk));
                }
                if model_of(orig).contains_key(kk) {
                    let w = choose|w: int|
                        0 <= w < orig.len() && entry_key_is(#[trigger] orig[w], kk);
                    assert(entry_key_is(pushed[w], kk));
                }
            }
        }
        assert forall|kk: (Seq<char>, Seq<char>)|
            #![auto]
            model_of(pushed).contains_key(kk) implies model_of(pushed)[kk] == model_of(
            orig,
        ).insert(k, v)[kk] by {
            if kk == k {
                lemma_unique_value(pushed, kk, m);
            } else {
                let w = choose|w: int|
                    0 <= w < pushed.len() && entry_key_is(#[trigger] pushed[w], kk);
                assert(w != m);
                assert(entry_key_is(orig[w], kk));
                lemma_unique_value(pushed, kk, w);
                lemma_unique_value(orig, kk, w);
            }
        }
    }
}

proof fn lemma_model_after_remove(
    orig: Seq<(String, String, String)>,
    removed: Seq<(String, String, String)>,
    i: int,
    k: (Seq<char>, Seq<char>),
)
    requires
        unique_store_keys(orig),
        0 <= i < orig.len(),
        entry_key_is(orig[i], k),
        removed == orig.remove(i),
    ensures
        unique_store_keys(removed),
        model_of(removed) == model_of(orig).remove(k),
{
    assert forall|a: int, b: int|
        #![trigger removed[a], removed[b]]
        0 <= a < b < removed.len() implies !(removed[a].0@ == removed[b].0@ && removed[a].1@
        == removed[b].1@) by {
        let a0 = if a < i { a } else { a + 1 };
        let b0 = if b < i { b } else { b + 1 };
        assert(removed[a] == orig[a0]);
        assert(removed[b] == orig[b0]);
    }
    assert(model_of(removed) =~= model_of(orig).remove(k)) by {
        assert forall|kk: (Seq<char>, Seq<char>)|
            model_of(removed).contains_key(kk) == model_of(orig).remove(k).contains_key(kk) by {
            if model_of(removed).contains_key(kk) {
                let w = choose|w: int|
                    0 <= w < removed.len() && entry_key_is(#[trigger] removed[w], kk);
                let w0 = if w < i { w } else { w + 1 };
                assert(removed[w] == orig[w0]);
                assert(entry_key_is(orig[w0], kk));
                if kk == k {
                    assert(w0 != i);
                    if w0 < i {
                        assert(!(orig[w0].0@ == orig[i].0@ && orig[w0].1@ == orig[i].1@));
                    } else {
                        assert(!(orig[i].0@ == orig[w0].0@ && orig[i].1@ == orig[w0].1@));
                    }
                }
            }
            if kk != k && model_of(orig).contains_key(kk) {
                let w = choose|w: int| 0 <= w < orig.len() && entry_key_is(#[trigger] orig[w], kk);
                assert(w != i);
                let w1 = if w < i { w } else { w - 1 };
                assert(removed[w1] == orig[w]);
                assert(entry_key_is(removed[w1], kk));
            }
        }
        assert forall|kk: (Seq<char>, Seq<char>)|
            #![auto]
            model_of(removed).contains_key(kk) implies model_of(removed)[kk] == model_of(
            orig,
        ).remove(k)[kk] by {
            let w = choose|w: int|
                0 <= w < removed.len() && entry_key_is(#[trigger] removed[w], kk);
            let w0 = if w < i { w } else { w + 1 };
            assert(removed[w] == orig[w0]);
            lemma_unique_value(removed, kk, w);
            lemma_unique_value(orig, kk, w0);
        }
    }
}

/// The platform secret store, reached through the keyring. Its contents are
/// shared with every other process on the machine, so it tracks no model.
pub struct KeyringStore {
}

impl KeyringStore {
    /// The platform store.
    pub fn new() -> (r: KeyringStore) {
        KeyringStore {  }
    }
}

/// Relies on keyring::Entry::get_password; what it returns depends on the
/// platform keychain's state, so nothing is promised.
#[verifier::external_body]
fn keyring_get(service: &str, key: &str) -> Option<String> {
    keyring::Entry::new(service, key).get_password().ok()
}

/// Relies on keyring::Entry::set_password; whether it succeeds depends on
/// the platform keychain, so nothing is promised.
#[verifier::external_body]
fn keyring_set(service: &str, key: &str, value: &str) -> bool {
    keyring::Entry::new(service, key).set_password(value).is_ok()
}

/// Relies on keyring::Entry::delete_password; whether it succeeds depends on
/// the platform keychain, so nothing is promised.
#[verifier::external_body]
fn keyring_delete(service: &str, key: &str) -> bool {
    keyring::Entry::new(service, key).delete_password().is_ok()
}

impl SecretStore for KeyringStore {
    open spec fn model(&self) -> Map<(Seq<char>, Seq<char>), Seq<char>> {
        Map::empty()
    }

    open spec fn tracks_model(&self) -> bool {
        false
    }

    fn get_secret(&self, service: &str, key: &str) -> Option<String> {
        keyring_get(service, key)
    }

    fn set_secret(&mut self, service: &str, key: &str, value: &str) -> bool {
        keyring_set(service, key, value)
    }

    fn delete_secret(&mut self, service: &str, key: &str) -> bool {
        keyring_delete(service, key)
    }
}

/// Secrets cached per profile: loaded from, written to and deleted from a
/// secret store.
pub trait Credential<T, U>: Sized {
    /// Loads the cached value belonging to the profile.
    fn load<S: SecretStore>(profile: &T, store: &S) -> Result<U, crate::errors::BrokerError>;

    /// Writes the value under the profile's slot and hands it back.
    fn write<S: SecretStore>(self, profile: &T, store: &mut S) -> Result<
        U,
        crate::errors::BrokerError,
    >;

    /// Removes the value from the profile's slot and hands it back.
    fn delete<S: SecretStore>(self, profile: &T, store: &mut S) -> Result<
        U,
        crate::errors::BrokerError,
    >;
}

} // verus!
