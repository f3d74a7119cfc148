//! Roles extracted from assertion attributes.
//!
//! A role attribute value holds two comma-separated ARNs in unspecified
//! order: the trust-anchor (identity-provider) ARN and the role ARN. The two
//! are told apart by content — the role ARN contains `:role/` — never by
//! position.

use crate::errors::BrokerError;
use crate::text::{
    contains_substring, count_occurrences, first_occurrence, has_substring,
    lemma_count_concat, lemma_first_concat_absent, lemma_first_occurrence_props, scan_char,
    spec_trim, trim_chars,
};
use vstd::prelude::*;

verus! {

/// A candidate cloud role: the trust-anchor ARN of the identity provider and
/// the ARN of the role to assume.
#[derive(Debug, Clone, PartialEq, Eq, Hash)]
pub struct Role {
    pub provider_arn: String,
    pub role_arn: String,
}

/// Tells the two trimmed fields of an attribute value apart by content.
/// Exactly one of them must contain `:role/`: that one is the role ARN, the
/// other the trust-anchor ARN. The result is `(provider_arn, role_arn)`.
pub open spec fn role_resolution(t0: Seq<char>, t1: Seq<char>) -> Option<(Seq<char>, Seq<char>)> {
    if has_substring(t0, ":role/"@) && !has_substring(t1, ":role/"@) {
        Some((t1, t0))
    } else if has_substring(t1, ":role/"@) && !has_substring(t0, ":role/"@) {
        Some((t0, t1))
    } else {
        None
    }
}

/// What parsing an attribute value yields: the pair `(provider_arn,
/// role_arn)` when the value has exactly two comma-separated fields and the
/// pair can be resolved by content, nothing otherwise.
pub open spec fn spec_parse_role(s: Seq<char>) -> Option<(Seq<char>, Seq<char>)> {
    if count_occurrences(s, ',') != 1 {
        None
    } else {
        let i = first_occurrence(s, ',');
        role_resolution(spec_trim(s.take(i)), spec_trim(s.skip(i + 1)))
    }
}

impl Role {
    /// Parses one attribute value. A value with fewer or more than two
    /// comma-separated fields fails, as does a two-field value in which the
    /// role ARN cannot be singled out by content.
    pub fn from_attribute(s: &str) -> (r: Result<Role, BrokerError>)
        ensures
            r is Ok <==> spec_parse_role(s@) is Some,
            r matches Ok(role) ==> spec_parse_role(s@) == Some(
                (role.provider_arn@, role.role_arn@),
            ),
            count_occurrences(s@, ',') == 0 ==> (r matches Err(
                BrokerError::NotEnoughElements(t),
            ) && t@ == s@),
            count_occurrences(s@, ',') >= 2 ==> (r matches Err(BrokerError::TooManyElements(t))
                && t@ == s@),
            count_occurrences(s@, ',') == 1 && spec_parse_role(s@) is None ==> (r matches Err(
                BrokerError::AmbiguousRolePair(t),
            ) && t@ == s@),
    {
        let (count, first) = scan_char(s, ',');
        if count == 0 {
            return Err(BrokerError::NotEnoughElements(s.to_owned()));
        }
        if count > 1 {
            return Err(BrokerError::TooManyElements(s.to_owned()));
        }
        proof {
            lemma_first_occurrence_props(s@, ',');
        }
        let n = s.unicode_len();
        let head = s.substring_char(0, first);
        let tail = s.substring_char(first + 1, n);
        proof {
            assert(head@ =~= s@.take(first as int));
            assert(tail@ =~= s@.skip(first + 1));
        }
        let t0 = trim_chars(head);
        let t1 = trim_chars(tail);
        let m0 = contains_substring(t0, ":role/");
        let m1 = contains_substring(t1, ":role/");
        if m0 && !m1 {
            Ok(Role { provider_arn: t1.to_owned(), role_arn: t0.to_owned() })
        } else if m1 && !m0 {
            Ok(Role { provider_arn: t0.to_owned(), role_arn: t1.to_owned() })
        } else {
            Err(BrokerError::AmbiguousRolePair(s.to_owned()))
        }
    }

    /// The short name of the role: the part of the role ARN after its single
    /// `/`. An ARN without a `/`, or with several, has no short name.
    pub fn role_name<'a>(&'a self) -> (r: Result<&'a str, BrokerError>)
        ensures
            count_occurrences(self.role_arn@, '/') == 1 ==> (r matches Ok(name) && name@
                == self.role_arn@.skip(first_occurrence(self.role_arn@, '/') + 1)),
            count_occurrences(self.role_arn@, '/') == 0 ==> (r matches Err(
                BrokerError::NotEnoughElements(t),
            ) && t@ == self.role_arn@),
            count_occurrences(self.role_arn@, '/') >= 2 ==> (r matches Err(
                BrokerError::TooManyElements(t),
            ) && t@ == self.role_arn@),
    {
        let arn = self.role_arn.as_str();
        let (count, first) = scan_char(arn, '/');
        if count == 0 {
            return Err(BrokerError::NotEnoughElements(self.role_arn.clone()));
        }
        if count > 1 {
            return Err(BrokerError::TooManyElements(self.role_arn.clone()));
        }
        proof {
            lemma_first_occurrence_props(arn@, '/');
        }
        let n = arn.unicode_len();
        let name = arn.substring_char(first + 1, n);
        proof {
            assert(name@ =~= arn@.skip(first + 1));
        }
        Ok(name)
    }

    /// A field-for-field copy of the role.
    pub fn clone_role(&self) -> (r: Role)
        ensures
            r == *self,
    {
        Role { provider_arn: self.provider_arn.clone(), role_arn: self.role_arn.clone() }
    }

    /// The text a listing shows for the role: its role ARN.
    pub fn display_string(&self) -> (r: String)
        ensures
            r@ == self.role_arn@,
    {
        self.role_arn.clone()
    }
}

impl core::str::FromStr for Role {
    type Err = BrokerError;

    fn from_str(s: &str) -> Result<Role, BrokerError> {
        Role::from_attribute(s)
    }
}

/// Resolution of a two-field attribute value is content-based: swapping the
/// order of the two fields parses to the very same role.
pub proof fn lemma_parse_role_swap(a: Seq<char>, b: Seq<char>)
    requires
        count_occurrences(a, ',') == 0,
        count_occurrences(b, ',') == 0,
    ensures
        spec_parse_role(a + seq![','] + b) == spec_parse_role(b + seq![','] + a),
{
    lemma_parse_role_shape(a, b);
    lemma_parse_role_shape(b, a);
    let sab = a + seq![','] + b;
    let sba = b + seq![','] + a;
    assert(spec_parse_role(sab) == role_resolution(spec_trim(a), spec_trim(b)));
    assert(spec_parse_role(sba) == role_resolution(spec_trim(b), spec_trim(a)));
}

/// Joining two comma-free fields with a comma parses by resolving exactly
/// those two fields, trimmed.
pub proof fn lemma_parse_role_shape(a: Seq<char>, b: Seq<char>)
    requires
        count_occurrences(a, ',') == 0,
        count_occurrences(b, ',') == 0,
    ensures
        spec_parse_role(a + seq![','] + b) == role_resolution(spec_trim(a), spec_trim(b)),
{
    let s = a + seq![','] + b;
    assert(seq![','].drop_first() =~= Seq::<char>::empty());
    assert(seq![','].len() == 1 && seq![','][0] == ',');
    assert(count_occurrences(Seq::<char>::empty(), ',') == 0);
    assert(count_occurrences(seq![','], ',') == 1);
    assert(first_occurrence(seq![','], ',') == 0);
    lemma_count_concat(a + seq![','], b, ',');
    lemma_count_concat(a, seq![','], ',');
    assert(count_occurrences(s, ',') == 1);
    lemma_first_concat_absent(a, seq![','] + b, ',');
    assert(a + seq![','] + b =~= a + (seq![','] + b));
    assert((seq![','] + b)[0] == ',');
    assert(first_occurrence(seq![','] + b, ',') == 0);
    assert(first_occurrence(s, ',') == a.len());
    assert(s.take(a.len() as int) =~= a);
    assert(s.skip(a.len() as int + 1) =~= b);
}

} // verus!
