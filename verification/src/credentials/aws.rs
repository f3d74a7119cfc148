//! Exchanged cloud credentials and their lifecycle.
//!
//! A set of temporary credentials is valid only when all four fields are
//! present, and counts as expired from 900 seconds before its real
//! expiration, so a consumer always has a safety margin.

use crate::config::app::{
    sha256_of, spec_base_url, spec_identifier_input, url_scheme_host, AppProfile,
};
use crate::credentials::{service_string, Credential, CredentialType, SecretStore};
use crate::errors::BrokerError;
use crate::text::{clone_opt_string, spec_hex_lower, str_eq};
use vstd::prelude::*;
use vstd::string::StringExecFns;
use vstd::utf8::encode_utf8;

verus! {

/// The safety margin: credentials this close to expiration count as expired.
pub const SECONDS_TO_EXPIRATION: i64 = 900;

/// Temporary cloud credentials, in the shape the credential-process protocol
/// uses. Any field may be absent; such a value is never valid.
#[derive(Debug, Clone, PartialEq, Eq, Hash)]
pub struct AwsCredentials {
    pub version: i32,
    pub access_key_id: Option<String>,
    pub secret_access_key: Option<String>,
    pub session_token: Option<String>,
    pub expiration: Option<String>,
}

/// What the exchange's response carries in its credentials block.
#[derive(Debug, Clone)]
pub struct ExchangedCredentials {
    pub access_key_id: Option<String>,
    pub secret_access_key: Option<String>,
    pub session_token: Option<String>,
    pub expiration: Option<String>,
}

/// All four fields are present.
pub open spec fn spec_valid(c: AwsCredentials) -> bool {
    c.access_key_id is Some && c.secret_access_key is Some && c.session_token is Some
        && c.expiration is Some
}

/// Expired means: the expiration lies less than 900 seconds after now.
pub open spec fn spec_expired(expiration_secs: int, now_secs: int) -> bool {
    expiration_secs - now_secs < SECONDS_TO_EXPIRATION
}

/// The moment an RFC 3339 timestamp string denotes, in seconds since the
/// epoch; nothing when the string does not parse.
pub uninterp spec fn rfc3339_seconds(s: Seq<char>) -> Option<i64>;

/// Relies on chrono::DateTime::parse_from_rfc3339 and timestamp: the moment
/// an RFC 3339 string denotes, a function of the string alone.
#[verifier::external_body]
fn parse_rfc3339_seconds(s: &str) -> (r: Option<i64>)
    ensures
        r == rfc3339_seconds(s@),
{
    match chrono::DateTime::parse_from_rfc3339(s) {
        Ok(t) => Some(t.timestamp()),
        Err(_) => None,
    }
}

/// Whether credentials expiring at `expiration_secs` count as expired at
/// `now_secs`: the hard 900-second boundary.
pub fn expired_at(expiration_secs: i64, now_secs: i64) -> (r: bool)
    ensures
        r == spec_expired(expiration_secs as int, now_secs as int),
{
    (expiration_secs as i128) - (now_secs as i128) < (SECONDS_TO_EXPIRATION as i128)
}

/// The 900-second boundary is hard: an expiration 899 seconds away is already
/// expired, one 901 seconds away is not yet.
pub proof fn lemma_expiration_boundary(now_secs: int)
    ensures
        spec_expired(now_secs + 899, now_secs),
        !spec_expired(now_secs + 900, now_secs),
        !spec_expired(now_secs + 901, now_secs),
{
}

/// Whether a fresh login is needed for these credentials at this moment:
/// when any field is absent, when the expiration cannot be read, or when the
/// expiration lies within the safety margin.
pub open spec fn spec_needs_refresh(c: AwsCredentials, now_secs: int) -> bool {
    if !spec_valid(c) {
        true
    } else {
        match c.expiration {
            Some(e) => match rfc3339_seconds(e@) {
                Some(t) => spec_expired(t as int, now_secs),
                None => true,
            },
            None => true,
        }
    }
}

impl Default for AwsCredentials {
    /// The all-absent value a missing cache entry stands for.
    fn default() -> (r: AwsCredentials)
        ensures
            r.version == 1,
            r.access_key_id is None,
            r.secret_access_key is None,
            r.session_token is None,
            r.expiration is None,
    {
        AwsCredentials {
            version: 1,
            access_key_id: None,
            secret_access_key: None,
            session_token: None,
            expiration: None,
        }
    }
}

impl AwsCredentials {
    /// Valid means: none of the four fields is absent.
    pub fn valid(&self) -> (r: bool)
        ensures
            r == spec_valid(*self),
    {
        self.access_key_id.is_some() && self.secret_access_key.is_some()
            && self.session_token.is_some() && self.expiration.is_some()
    }

    /// Whether the credentials count as expired at `now_secs`. An absent
    /// expiration cannot be expired; an unreadable one gives nothing.
    pub fn is_expired(&self, now_secs: i64) -> (r: Option<bool>)
        ensures
            match self.expiration {
                Some(e) => match rfc3339_seconds(e@) {
                    Some(t) => r == Some(spec_expired(t as int, now_secs as int)),
                    None => r is None,
                },
                None => r == Some(false),
            },
    {
        match &self.expiration {
            None => Some(false),
            Some(e) => match parse_rfc3339_seconds(e.as_str()) {
                Some(t) => Some(expired_at(t, now_secs)),
                None => None,
            },
        }
    }

    /// Whether the broker must log in afresh rather than reuse these
    /// credentials.
    pub fn needs_refresh(&self, now_secs: i64) -> (r: bool)
        ensures
            r == spec_needs_refresh(*self, now_secs as int),
    {
        if !self.valid() {
            return true;
        }
        match &self.expiration {
            None => true,
            Some(e) => match parse_rfc3339_seconds(e.as_str()) {
                Some(t) => expired_at(t, now_secs),
                None => true,
            },
        }
    }

    /// Classifies the exchange's outcome: a response without a credentials
    /// block is its own failure, distinct from transport failure; one with a
    /// block carries the four fields over, absent or not.
    pub fn from_exchange(c: Option<ExchangedCredentials>) -> (r: Result<
        AwsCredentials,
        BrokerError,
    >)
        ensures
            c matches Some(e) ==> (r matches Ok(a) && a.version == 1 && a.access_key_id
                == e.access_key_id && a.secret_access_key == e.secret_access_key && a.session_token
                == e.session_token && a.expiration == e.expiration),
            c is None ==> r matches Err(BrokerError::MissingCredentialsInResponse),
    {
        match c {
            Some(e) => Ok(
                AwsCredentials {
                    version: 1,
                    access_key_id: e.access_key_id,
                    secret_access_key: e.secret_access_key,
                    session_token: e.session_token,
                    expiration: e.expiration,
                },
            ),
            None => Err(BrokerError::MissingCredentialsInResponse),
        }
    }

    /// The four fields under their store keys, in a fixed order.
    pub fn to_field_pairs(&self) -> (r: Vec<(String, Option<String>)>)
        ensures
            r@.len() == 4,
            r@[0].0@ == "access_key_id"@ && r@[0].1 == self.access_key_id,
            r@[1].0@ == "secret_access_key"@ && r@[1].1 == self.secret_access_key,
            r@[2].0@ == "session_token"@ && r@[2].1 == self.session_token,
            r@[3].0@ == "expiration"@ && r@[3].1 == self.expiration,
    {
        let mut out: Vec<(String, Option<String>)> = Vec::new();
        out.push(("access_key_id".to_owned(), clone_opt_string(&self.access_key_id)));
        out.push(("secret_access_key".to_owned(), clone_opt_string(&self.secret_access_key)));
        out.push(("session_token".to_owned(), clone_opt_string(&self.session_token)));
        out.push(("expiration".to_owned(), clone_opt_string(&self.expiration)));
        out
    }

    /// Credentials built from field pairs: each field takes the value of the
    /// first pair carrying its key, or stays absent.
    pub fn from_field_pairs(pairs: &Vec<(String, Option<String>)>) -> (r: AwsCredentials)
        ensures
            r.version == 1,
            r.access_key_id == spec_lookup(pairs@, "access_key_id"@),
            r.secret_access_key == spec_lookup(pairs@, "secret_access_key"@),
            r.session_token == spec_lookup(pairs@, "session_token"@),
            r.expiration == spec_lookup(pairs@, "expiration"@),
    {
        AwsCredentials {
            version: 1,
            access_key_id: field_lookup(pairs, "access_key_id"),
            secret_access_key: field_lookup(pairs, "secret_access_key"),
            session_token: field_lookup(pairs, "session_token"),
            expiration: field_lookup(pairs, "expiration"),
        }
    }

    /// Renders complete credentials in the credential-process JSON layout.
    pub fn to_json(&self) -> (r: String)
        requires
            spec_valid(*self),
            self.version == 1,
        ensures
            ({
                let ak = self.access_key_id->0;
                let sk = self.secret_access_key->0;
                let st = self.session_token->0;
                let exp = self.expiration->0;
                r@ == spec_credentials_json(ak@, sk@, st@, exp@)
            }),
    {
        let ak = match &self.access_key_id {
            Some(v) => escape_json(v.as_str()),
            None => String::new(),
        };
        let sk = match &self.secret_access_key {
            Some(v) => escape_json(v.as_str()),
            None => String::new(),
        };
        let st = match &self.session_token {
            Some(v) => escape_json(v.as_str()),
            None => String::new(),
        };
        let exp = match &self.expiration {
            Some(v) => escape_json(v.as_str()),
            None => String::new(),
        };
        "{\"Version\":1,\"AccessKeyId\":\"".to_owned().concat(ak.as_str()).concat(
            "\",\"SecretAccessKey\":\"",
        ).concat(sk.as_str()).concat("\",\"SessionToken\":\"").concat(st.as_str()).concat(
            "\",\"Expiration\":\"",
        ).concat(exp.as_str()).concat("\"}")
    }

    /// The environment variables a child process receives: the three key
    /// fields under their upper-case names; the expiration never pollutes the
    /// environment.
    pub fn to_env_pairs(&self) -> (r: Vec<(String, String)>)
        requires
            self.access_key_id is Some,
            self.secret_access_key is Some,
            self.session_token is Some,
        ensures
            r@.len() == 3,
            r@[0].0@ == "AWS_ACCESS_KEY_ID"@ && (self.access_key_id matches Some(v) ==> r@[0].1
                == v),
            r@[1].0@ == "AWS_SECRET_ACCESS_KEY"@ && (self.secret_access_key matches Some(v)
                ==> r@[1].1 == v),
            r@[2].0@ == "AWS_SESSION_TOKEN"@ && (self.session_token matches Some(v) ==> r@[2].1
                == v),
    {
        let mut out: Vec<(String, String)> = Vec::new();
        let ak = match &self.access_key_id {
            Some(v) => v.clone(),
            None => String::new(),
        };
        let sk = match &self.secret_access_key {
            Some(v) => v.clone(),
            None => String::new(),
        };
        let st = match &self.session_token {
            Some(v) => v.clone(),
            None => String::new(),
        };
        out.push(("AWS_ACCESS_KEY_ID".to_owned(), ak));
        out.push(("AWS_SECRET_ACCESS_KEY".to_owned(), sk));
        out.push(("AWS_SESSION_TOKEN".to_owned(), st));
        out
    }
}

/// What one character contributes to a JSON string: quote and backslash are
/// escaped, the common control characters get their short escapes, the other
/// control characters a unicode escape, and everything else passes through.
pub open spec fn json_escaped_char(c: char) -> Seq<char> {
    if c == '"' {
        seq!['\\', '"']
    } else if c == '\\' {
        seq!['\\', '\\']
    } else if c == '\n' {
        seq!['\\', 'n']
    } else if c == '\r' {
        seq!['\\', 'r']
    } else if c == '\t' {
        seq!['\\', 't']
    } else if (c as u32) < 32 {
        seq![
            '\\',
            'u',
            '0',
            '0',
            crate::text::hex_digit(((c as u32) / 16) as u8),
            crate::text::hex_digit(((c as u32) % 16) as u8),
        ]
    } else {
        seq![c]
    }
}

/// A string escaped for a JSON document, character by character.
pub open spec fn json_escaped(s: Seq<char>) -> Seq<char>
    decreases s.len(),
{
    if s.len() == 0 {
        Seq::empty()
    } else {
        json_escaped_char(s[0]) + json_escaped(s.drop_first())
    }
}

fn push_escaped(out: &mut String, c: char)
    ensures
        final(out)@ == old(out)@ + json_escaped_char(c),
{
    if c == '"' || c == '\\' {
        crate::text::push_char(out, '\\');
        crate::text::push_char(out, c);
        proof {
            assert(out@ =~= old(out)@ + json_escaped_char(c));
        }
    } else if c == '\n' {
        crate::text::push_char(out, '\\');
        crate::text::push_char(out, 'n');
        proof {
            assert(out@ =~= old(out)@ + json_escaped_char(c));
        }
    } else if c == '\r' {
        crate::text::push_char(out, '\\');
        crate::text::push_char(out, 'r');
        proof {
            assert(out@ =~= old(out)@ + json_escaped_char(c));
        }
    } else if c == '\t' {
        crate::text::push_char(out, '\\');
        crate::text::push_char(out, 't');
        proof {
            assert(out@ =~= old(out)@ + json_escaped_char(c));
        }
    } else if (c as u32) < 32 {
        let code = c as u32;
        let hi = crate::text::hex_digit_exec((code / 16) as u8);
        let lo = crate::text::hex_digit_exec((code % 16) as u8);
        crate::text::push_char(out, '\\');
        crate::text::push_char(out, 'u');
        crate::text::push_char(out, '0');
        crate::text::push_char(out, '0');
        crate::text::push_char(out, hi);
        crate::text::push_char(out, lo);
        proof {
            assert(out@ =~= old(out)@ + json_escaped_char(c));
        }
    } else {
        crate::text::push_char(out, c);
        proof {
            assert(out@ =~= old(out)@ + json_escaped_char(c));
        }
    }
}

fn escape_json(s: &str) -> (r: String)
    ensures
        r@ == json_escaped(s@),
{
    let n = s.unicode_len();
    let mut res = String::new();
    let mut i: usize = 0;
    proof {
        assert(s@.skip(0) =~= s@);
    }
    while i < n
        invariant
            n == s@.len(),
            0 <= i <= n,
            res@ + json_escaped(s@.skip(i as int)) == json_escaped(s@),
        decreases n - i,
    {
        let c = s.get_char(i);
        proof {
            let rest = s@.skip(i as int);
            assert(rest[0] == s@[i as int]);
            assert(rest.drop_first() =~= s@.skip(i + 1));
            assert((res@ + json_escaped_char(c)) + json_escaped(s@.skip(i + 1)) =~= res@ + (
            json_escaped_char(c) + json_escaped(s@.skip(i + 1))));
        }
        push_escaped(&mut res, c);
        i = i + 1;
    }
    proof {
        assert(s@.skip(n as int) =~= Seq::<char>::empty());
        assert(res@ + Seq::<char>::empty() =~= res@);
    }
    res
}

/// The credential-process JSON document for one set of complete credentials.
pub open spec fn spec_credentials_json(
    ak: Seq<char>,
    sk: Seq<char>,
    st: Seq<char>,
    exp: Seq<char>,
) -> Seq<char> {
    "{\"Version\":1,\"AccessKeyId\":\""@ + json_escaped(ak) + "\",\"SecretAccessKey\":\""@
        + json_escaped(sk) + "\",\"SessionToken\":\""@ + json_escaped(st)
        + "\",\"Expiration\":\""@ + json_escaped(exp) + "\"}"@
}

/// The value of the first pair carrying `key`; absent when no pair does.
pub open spec fn spec_lookup(s: Seq<(String, Option<String>)>, key: Seq<char>) -> Option<String>
    decreases s.len(),
{
    if s.len() == 0 {
        None
    } else if s[0].0@ == key {
        s[0].1
    } else {
        spec_lookup(s.drop_first(), key)
    }
}

proof fn lemma_lookup_skip(s: Seq<(String, Option<String>)>, key: Seq<char>, j: int)
    requires
        0 <= j <= s.len(),
        forall|k: int| 0 <= k < j ==> s[k].0@ != key,
    ensures
        spec_lookup(s, key) == spec_lookup(s.skip(j), key),
    decreases j,
{
    if j > 0 {
        assert(s.drop_first() =~= s.skip(1));
        lemma_lookup_skip(s.drop_first(), key, j - 1);
        assert(s.drop_first().skip(j - 1) =~= s.skip(j));
    } else {
        assert(s.skip(0) =~= s);
    }
}

/// The value of the first pair carrying `key`.
fn field_lookup(pairs: &Vec<(String, Option<String>)>, key: &str) -> (r: Option<String>)
    ensures
        r == spec_lookup(pairs@, key@),
{
    let n = pairs.len();
    let mut i: usize = 0;
    while i < n
        invariant
            n == pairs@.len(),
            0 <= i <= n,
            forall|k: int| 0 <= k < i ==> pairs@[k].0@ != key@,
        decreases n - i,
    {
        let entry = &pairs[i];
        if str_eq(entry.0.as_str(), key) {
            proof {
                lemma_lookup_skip(pairs@, key@, i as int);
                assert(pairs@.skip(i as int)[0] == pairs@[i as int]);
            }
            return clone_opt_string(&entry.1);
        }
        i = i + 1;
    }
    proof {
        lemma_lookup_skip(pairs@, key@, n as int);
        assert(pairs@.skip(n as int) =~= Seq::<(String, Option<String>)>::empty());
    }
    None
}

/// The service string a profile's cloud credentials are cached under: the
/// `aws` kind and the profile's hashed identifier.
pub open spec fn spec_aws_service(profile: AppProfile) -> Seq<char> {
    "crowbar::"@ + "aws"@ + "::"@ + spec_hex_lower(
        sha256_of(
            encode_utf8(
                spec_identifier_input(spec_base_url(profile.url@)->0, profile.username@),
            ),
        ),
    )
}

/// Whether an optional field holds exactly what the store's model has under
/// this service and key: a present field carries the stored value, an absent
/// field means the key is not stored.
pub open spec fn field_from_model(
    m: Map<(Seq<char>, Seq<char>), Seq<char>>,
    svc: Seq<char>,
    key: Seq<char>,
    field: Option<String>,
) -> bool {
    match field {
        Some(v) => m.contains_key((svc, key)) && v@ == m[(svc, key)],
        None => !m.contains_key((svc, key)),
    }
}

/// The store's model after one field is written: a present field overwrites
/// its key, an absent field leaves the store alone.
pub open spec fn store_field(
    m: Map<(Seq<char>, Seq<char>), Seq<char>>,
    svc: Seq<char>,
    key: Seq<char>,
    field: Option<String>,
) -> Map<(Seq<char>, Seq<char>), Seq<char>> {
    match field {
        Some(v) => m.insert((svc, key), v@),
        None => m,
    }
}

/// The store's model after a whole credential set is written: each of the
/// four fields independently, in field order.
pub open spec fn spec_write_credentials(
    m: Map<(Seq<char>, Seq<char>), Seq<char>>,
    svc: Seq<char>,
    c: AwsCredentials,
) -> Map<(Seq<char>, Seq<char>), Seq<char>> {
    store_field(
        store_field(
            store_field(
                store_field(m, svc, "access_key_id"@, c.access_key_id),
                svc,
                "secret_access_key"@,
                c.secret_access_key,
            ),
            svc,
            "session_token"@,
            c.session_token,
        ),
        svc,
        "expiration"@,
        c.expiration,
    )
}

/// The store's model after a credential set is deleted: none of the four
/// keys remains.
pub open spec fn spec_delete_credentials(
    m: Map<(Seq<char>, Seq<char>), Seq<char>>,
    svc: Seq<char>,
) -> Map<(Seq<char>, Seq<char>), Seq<char>> {
    m.remove((svc, "access_key_id"@)).remove((svc, "secret_access_key"@)).remove(
        (svc, "session_token"@),
    ).remove((svc, "expiration"@))
}

/// The service string the cloud credentials of a profile are cached under:
/// derived from the hashed identifier, so raw identifiers never leak into
/// store keys.
pub fn credentials_as_service(profile: &AppProfile) -> (r: Result<String, BrokerError>)
    ensures
        r is Err <==> url_scheme_host(profile.url@) is None,
        r matches Err(e) ==> e is InvalidUrl,
        r matches Ok(s) ==> s@ == spec_aws_service(*profile),
{
    let id = profile.identifier()?;
    Ok(service_string(CredentialType::Aws, id.as_str()))
}

impl Credential<AppProfile, AwsCredentials> for AwsCredentials {
    /// Loads the four cached fields. Against a store that tracks its model,
    /// each field is exactly what the model holds: a missing entry yields the
    /// all-absent value, never an error.
    fn load<S: SecretStore>(profile: &AppProfile, store: &S) -> (r: Result<
        AwsCredentials,
        BrokerError,
    >)
        ensures
            r is Err <==> url_scheme_host(profile.url@) is None,
            r matches Err(e) ==> e is InvalidUrl,
            r matches Ok(c) ==> c.version == 1,
            store.tracks_model() && url_scheme_host(profile.url@) is Some ==> (r matches Ok(c) && ({
                let svc = spec_aws_service(*profile);
                &&& field_from_model(store.model(), svc, "access_key_id"@, c.access_key_id)
                &&& field_from_model(store.model(), svc, "secret_access_key"@, c.secret_access_key)
                &&& field_from_model(store.model(), svc, "session_token"@, c.session_token)
                &&& field_from_model(store.model(), svc, "expiration"@, c.expiration)
            })),
    {
        let service = credentials_as_service(profile)?;
        Ok(
            AwsCredentials {
                version: 1,
                access_key_id: store.get_secret(service.as_str(), "access_key_id"),
                secret_access_key: store.get_secret(service.as_str(), "secret_access_key"),
                session_token: store.get_secret(service.as_str(), "session_token"),
                expiration: store.get_secret(service.as_str(), "expiration"),
            },
        )
    }

    /// Writes each present field under its key; absent fields write nothing,
    /// so a value with no fields succeeds without touching the store. A store
    /// refusal names the refused key. Against a store that tracks its model,
    /// the write lands exactly the present fields, each independently.
    fn write<S: SecretStore>(self, profile: &AppProfile, store: &mut S) -> (r: Result<
        AwsCredentials,
        BrokerError,
    >)
        ensures
            url_scheme_host(profile.url@) is None ==> (r matches Err(e) && e is InvalidUrl),
            r matches Ok(c) ==> c == self,
            r matches Err(e) ==> e is InvalidUrl || (e matches BrokerError::SecretStoreFailure(k)
                && (k@ == "access_key_id"@ || k@ == "secret_access_key"@ || k@ == "session_token"@
                || k@ == "expiration"@)),
            url_scheme_host(profile.url@) is Some && self.access_key_id is None
                && self.secret_access_key is None && self.session_token is None && self.expiration
                is None ==> r is Ok,
            old(store).tracks_model() && url_scheme_host(profile.url@) is Some ==> (r matches Ok(c)
                && c == self && final(store).tracks_model() && final(store).model()
                == spec_write_credentials(
                old(store).model(),
                spec_aws_service(*profile),
                self,
            )),
    {
        let service = credentials_as_service(profile)?;
        if let Some(v) = &self.access_key_id {
            if !store.set_secret(service.as_str(), "access_key_id", v.as_str()) {
                return Err(BrokerError::SecretStoreFailure("access_key_id".to_owned()));
            }
        }
        if let Some(v) = &self.secret_access_key {
            if !store.set_secret(service.as_str(), "secret_access_key", v.as_str()) {
                return Err(BrokerError::SecretStoreFailure("secret_access_key".to_owned()));
            }
        }
        if let Some(v) = &self.session_token {
            if !store.set_secret(service.as_str(), "session_token", v.as_str()) {
                return Err(BrokerError::SecretStoreFailure("session_token".to_owned()));
            }
        }
        if let Some(v) = &self.expiration {
            if !store.set_secret(service.as_str(), "expiration", v.as_str()) {
                return Err(BrokerError::SecretStoreFailure("expiration".to_owned()));
            }
        }
        Ok(self)
    }

    /// Deletes whatever of the four fields the store still holds. Against a
    /// store that tracks its model, none of the four keys survives.
    fn delete<S: SecretStore>(self, profile: &AppProfile, store: &mut S) -> (r: Result<
        AwsCredentials,
        BrokerError,
    >)
        ensures
            url_scheme_host(profile.url@) is None ==> (r matches Err(e) && e is InvalidUrl),
            r matches Ok(c) ==> c == self,
            r matches Err(e) ==> e is InvalidUrl || (e matches BrokerError::SecretStoreFailure(k)
                && (k@ == "access_key_id"@ || k@ == "secret_access_key"@ || k@ == "session_token"@
                || k@ == "expiration"@)),
            old(store).tracks_model() && url_scheme_host(profile.url@) is Some ==> (r matches Ok(c)
                && c == self && final(store).tracks_model() && final(store).model()
                == spec_delete_credentials(old(store).model(), spec_aws_service(*profile))),
    {
        let ghost m0 = store.model();
        let service = credentials_as_service(profile)?;
        if store.get_secret(service.as_str(), "access_key_id").is_some() {
            if !store.delete_secret(service.as_str(), "access_key_id") {
                return Err(BrokerError::SecretStoreFailure("access_key_id".to_owned()));
            }
        }
        proof {
            if old(store).tracks_model() {
                assert(store.model() =~= m0.remove((service@, "access_key_id"@)));
            }
        }
        if store.get_secret(service.as_str(), "secret_access_key").is_some() {
            if !store.delete_secret(service.as_str(), "secret_access_key") {
                return Err(BrokerError::SecretStoreFailure("secret_access_key".to_owned()));
            }
        }
        proof {
            if old(store).tracks_model() {
                assert(store.model() =~= m0.remove((service@, "access_key_id"@)).remove(
                    (service@, "secret_access_key"@),
                ));
            }
        }
        if store.get_secret(service.as_str(), "session_token").is_some() {
            if !store.delete_secret(service.as_str(), "session_token") {
                return Err(BrokerError::SecretStoreFailure("session_token".to_owned()));
            }
        }
        proof {
            if old(store).tracks_model() {
                assert(store.model() =~= m0.remove((service@, "access_key_id"@)).remove(
                    (service@, "secret_access_key"@),
                ).remove((service@, "session_token"@)));
            }
        }
        if store.get_secret(service.as_str(), "expiration").is_some() {
            if !store.delete_secret(service.as_str(), "expiration") {
                return Err(BrokerError::SecretStoreFailure("expiration".to_owned()));
            }
        }
        proof {
            if old(store).tracks_model() {
                assert(store.model() =~= m0.remove((service@, "access_key_id"@)).remove(
                    (service@, "secret_access_key"@),
                ).remove((service@, "session_token"@)).remove((service@, "expiration"@)));
            }
        }
        Ok(self)
    }
}

} // verus!
