//! Operator-facing selection logic: which role to assume, and the texts of
//! the prompts. Rendering a prompt and reading the answer stay with the
//! caller; what is chosen, and when the operator must be asked, is decided
//! here.

use crate::aws::role::Role;
use crate::text::str_eq;
use vstd::multiset::Multiset;
use vstd::prelude::*;
use vstd::string::StringExecFns;

verus! {

/// How loud the run is.
#[derive(Debug, Clone, PartialEq, Eq, Hash, Structural)]
pub enum LevelFilter {
    Off,
    Error,
    Warn,
    Info,
    Debug,
    Trace,
}

/// Lexicographic order on character sequences, by scalar value.
pub open spec fn lex_le(a: Seq<char>, b: Seq<char>) -> bool
    decreases a.len(),
{
    if a.len() == 0 {
        true
    } else if b.len() == 0 {
        false
    } else if (a[0] as u32) < (b[0] as u32) {
        true
    } else if (a[0] as u32) > (b[0] as u32) {
        false
    } else {
        lex_le(a.drop_first(), b.drop_first())
    }
}

/// The order is total: two sequences compare in one direction or the other.
pub proof fn lemma_lex_total(a: Seq<char>, b: Seq<char>)
    ensures
        lex_le(a, b) || lex_le(b, a),
    decreases a.len(),
{
    if a.len() > 0 && b.len() > 0 && (a[0] as u32) == (b[0] as u32) {
        lemma_lex_total(a.drop_first(), b.drop_first());
    }
}

/// The order is transitive.
pub proof fn lemma_lex_transitive(a: Seq<char>, b: Seq<char>, c: Seq<char>)
    requires
        lex_le(a, b),
        lex_le(b, c),
    ensures
        lex_le(a, c),
    decreases a.len(),
{
    if a.len() > 0 && b.len() > 0 && c.len() > 0 && (a[0] as u32) == (b[0] as u32) && (b[0] as u32)
        == (c[0] as u32) {
        lemma_lex_transitive(a.drop_first(), b.drop_first(), c.drop_first());
    }
}

proof fn lemma_lex_skip(a: Seq<char>, b: Seq<char>, k: int)
    requires
        0 <= k <= a.len(),
        k <= b.len(),
        forall|j: int| 0 <= j < k ==> a[j] == b[j],
    ensures
        lex_le(a, b) == lex_le(a.skip(k), b.skip(k)),
    decreases k,
{
    if k > 0 {
        assert(a.drop_first() =~= a.skip(1));
        assert(b.drop_first() =~= b.skip(1));
        lemma_lex_skip(a.drop_first(), b.drop_first(), k - 1);
        assert(a.drop_first().skip(k - 1) =~= a.skip(k));
        assert(b.drop_first().skip(k - 1) =~= b.skip(k));
    } else {
        assert(a.skip(0) =~= a);
        assert(b.skip(0) =~= b);
    }
}

/// Whether `a` comes before `b` (or equals it) in lexicographic order.
pub fn str_le(a: &str, b: &str) -> (r: bool)
    ensures
        r == lex_le(a@, b@),
{
    let an = a.unicode_len();
    let bn = b.unicode_len();
    let mut i: usize = 0;
    while i < an && i < bn
        invariant
            an == a@.len(),
            bn == b@.len(),
            0 <= i <= an,
            i <= bn,
            forall|j: int| 0 <= j < i ==> a@[j] == b@[j],
        decreases an - i,
    {
        let ca = a.get_char(i);
        let cb = b.get_char(i);
        if ca as u32 != cb as u32 {
            proof {
                lemma_lex_skip(a@, b@, i as int);
                assert(a@.skip(i as int)[0] == a@[i as int]);
                assert(b@.skip(i as int)[0] == b@[i as int]);
            }
            return (ca as u32) < (cb as u32);
        }
        proof {
            assert(a@[i as int] == b@[i as int]);
        }
        i = i + 1;
    }
    proof {
        lemma_lex_skip(a@, b@, i as int);
        if i == an {
            assert(a@.skip(i as int).len() == 0);
        } else {
            assert(b@.skip(i as int).len() == 0);
            assert(a@.skip(i as int).len() > 0);
        }
    }
    an <= bn
}

/// The strings stand in lexicographic order.
pub open spec fn sorted_lex(s: Seq<String>) -> bool {
    forall|i: int, j: int| #![trigger s[i], s[j]] 0 <= i < j < s.len() ==> lex_le(s[i]@, s[j]@)
}

/// The same strings, in lexicographic order.
pub fn sort_strings(v: Vec<String>) -> (r: Vec<String>)
    ensures
        sorted_lex(r@),
        r@.to_multiset() == v@.to_multiset(),
{
    broadcast use vstd::seq_lib::group_to_multiset_ensures;

    let ghost orig = v@;
    let n = v.len();
    let mut out: Vec<String> = Vec::new();
    let mut i: usize = 0;
    proof {
        assert(orig.take(0) =~= Seq::<String>::empty());
        assert(Seq::<String>::empty().to_multiset() =~= out@.to_multiset());
    }
    while i < n
        invariant
            n == orig.len(),
            v@ == orig,
            0 <= i <= n,
            sorted_lex(out@),
            out@.to_multiset() == orig.take(i as int).to_multiset(),
        decreases n - i,
    {
        let x = v[i].clone();
        let m = out.len();
        let mut p: usize = 0;
        while p < m && str_le(out[p].as_str(), x.as_str())
            invariant
                m == out@.len(),
                0 <= p <= m,
                forall|k: int| 0 <= k < p ==> lex_le((#[trigger] out@[k])@, x@),
            decreases m - p,
        {
            p = p + 1;
        }
        let ghost before = out@;
        proof {
            if p < m {
                lemma_lex_total(before[p as int]@, x@);
            }
        }
        out.insert(p, x);
        proof {
            broadcast use vstd::seq_lib::group_to_multiset_ensures;

            let inserted = before.insert(p as int, x);
            assert(out@ == inserted);
            assert forall|a: int, b: int|
                #![trigger inserted[a], inserted[b]]
                0 <= a < b < inserted.len() implies lex_le(inserted[a]@, inserted[b]@) by {
                if a < p && b < p {
                    assert(inserted[a] == before[a] && inserted[b] == before[b]);
                } else if a < p && b == p {
                    assert(inserted[a] == before[a]);
                } else if a < p && b > p {
                    assert(inserted[a] == before[a] && inserted[b] == before[b - 1]);
                } else if a == p && b > p {
                    assert(inserted[b] == before[b - 1]);
                    assert(lex_le(x@, before[p as int]@));
                    assert(lex_le(before[p as int]@, before[b - 1]@) || p == b - 1);
                    if p < b - 1 {
                        lemma_lex_transitive(x@, before[p as int]@, before[b - 1]@);
                    }
                } else {
                    assert(inserted[a] == before[a - 1] && inserted[b] == before[b - 1]);
                }
            }
            assert(inserted =~= before.take(p as int) + seq![x] + before.skip(p as int));
            assert(before =~= before.take(p as int) + before.skip(p as int));
            vstd::seq_lib::lemma_multiset_commutative(before.take(p as int) + seq![x], before.skip(p as int));
            vstd::seq_lib::lemma_multiset_commutative(before.take(p as int), seq![x]);
            vstd::seq_lib::lemma_multiset_commutative(before.take(p as int), before.skip(p as int));
            assert(seq![x] =~= Seq::<String>::empty().push(x));
            assert(Seq::<String>::empty().push(x).to_multiset() =~= Seq::<
                String,
            >::empty().to_multiset().insert(x));
            assert(Seq::<String>::empty().to_multiset() =~= Multiset::<String>::empty());
            assert(orig.take(i + 1) =~= orig.take(i as int).push(orig[i as int]));
            assert(orig.take(i as int).push(orig[i as int]).to_multiset() =~= orig.take(
                i as int,
            ).to_multiset().insert(orig[i as int]));
            assert(x == orig[i as int]);
            assert(inserted.to_multiset() =~= orig.take(i + 1).to_multiset());
        }
        i = i + 1;
    }
    proof {
        assert(orig.take(n as int) =~= orig);
    }
    out
}

/// What the selector decided: a role is settled, or the operator must choose
/// from the sorted identifier list. `preferred_missing` records that the
/// prompt came from a requested role that was not found, so its wording can
/// say so.
#[derive(Debug)]
pub enum RoleSelection {
    Chosen(Role),
    NeedsPrompt { options: Vec<String>, preferred_missing: bool },
}

/// Some role of the list carries this role ARN.
pub open spec fn spec_has_role_arn(roles: Seq<Role>, arn: Seq<char>) -> bool {
    exists|i: int| 0 <= i < roles.len() && (#[trigger] roles[i]).role_arn@ == arn
}

/// The role ARNs of a role list.
pub open spec fn spec_role_arns(roles: Seq<Role>) -> Seq<String> {
    roles.map_values(|r: Role| r.role_arn)
}

/// Picks a role. A preference that matches a role ARN exactly wins; a single
/// candidate is taken without a prompt; anything else defers to the operator
/// with the sorted identifier list, noting whether a missing preference
/// caused the fallback.
pub fn select_role(roles: &Vec<Role>, preferred: &Option<String>) -> (r: RoleSelection)
    requires
        roles@.len() > 0,
    ensures
        match preferred {
            Some(p) => spec_has_role_arn(roles@, p@) ==> (r matches RoleSelection::Chosen(role)
                && role.role_arn@ == p@ && roles@.contains(role)),
            None => true,
        },
        (match preferred {
            Some(p) => !spec_has_role_arn(roles@, p@),
            None => true,
        } && roles@.len() == 1) ==> r == RoleSelection::Chosen(roles@[0]),
        (match preferred {
            Some(p) => !spec_has_role_arn(roles@, p@),
            None => true,
        } && roles@.len() >= 2) ==> (r matches RoleSelection::NeedsPrompt {
            options,
            preferred_missing,
        } && preferred_missing == (preferred is Some) && sorted_lex(options@)
            && options@.to_multiset() == spec_role_arns(roles@).to_multiset()),
{
    if let Some(p) = preferred {
        let n = roles.len();
        let mut i: usize = 0;
        while i < n
            invariant
                *preferred == Some(*p),
                n == roles@.len(),
                0 <= i <= n,
                forall|k: int| 0 <= k < i ==> (#[trigger] roles@[k]).role_arn@ != p@,
            decreases n - i,
        {
            if str_eq(roles[i].role_arn.as_str(), p.as_str()) {
                let chosen = roles[i].clone_role();
                proof {
                    assert(roles@[i as int].role_arn@ == p@);
                    assert(roles@.contains(chosen));
                }
                return RoleSelection::Chosen(chosen);
            }
            i = i + 1;
        }
        proof {
            assert(!spec_has_role_arn(roles@, p@));
        }
    }
    if roles.len() == 1 {
        return RoleSelection::Chosen(roles[0].clone_role());
    }
    let n = roles.len();
    let mut arns: Vec<String> = Vec::new();
    let mut i: usize = 0;
    while i < n
        invariant
            n == roles@.len(),
            0 <= i <= n,
            arns@ =~= spec_role_arns(roles@.take(i as int)),
        decreases n - i,
    {
        arns.push(roles[i].role_arn.clone());
        proof {
            assert(roles@.take(i + 1).drop_last() =~= roles@.take(i as int));
            assert(arns@ =~= spec_role_arns(roles@.take(i + 1)));
        }
        i = i + 1;
    }
    proof {
        assert(roles@.take(n as int) =~= roles@);
    }
    let options = sort_strings(arns);
    RoleSelection::NeedsPrompt { options, preferred_missing: preferred.is_some() }
}

/// The prompt shown when the operator must pick a role; a requested role that
/// was not found is named.
pub fn role_prompt_text(preferred: &Option<String>) -> (r: String)
    ensures
        preferred matches Some(p) ==> r@ == "Role "@ + p@ + " not found; select the role to assume:"@,
        preferred is None ==> r@ == "Select the role to assume:"@,
{
    match preferred {
        Some(p) => "Role ".to_owned().concat(p.as_str()).concat(
            " not found; select the role to assume:",
        ),
        None => "Select the role to assume:".to_owned(),
    }
}

/// The prompt shown when the operator's password is needed.
pub fn password_prompt_text(username: &str, host: &str) -> (r: String)
    ensures
        r@ == "Password for "@ + username@ + " at "@ + host@,
{
    "Password for ".to_owned().concat(username).concat(" at ").concat(host)
}

/// The prompt shown when a one-time code is needed.
pub const MFA_PROMPT: &'static str = "Enter MFA code";

/// The decimal digits of a number, most significant first.
pub open spec fn spec_dec_digits(n: nat) -> Seq<char>
    decreases n,
{
    if n < 10 {
        seq![crate::text::hex_digit(n as u8)]
    } else {
        spec_dec_digits(n / 10) + seq![crate::text::hex_digit((n % 10) as u8)]
    }
}

/// A number written in decimal.
pub fn usize_to_dec(n: usize) -> (r: String)
    ensures
        r@ == spec_dec_digits(n as nat),
    decreases n,
{
    if n < 10 {
        let mut s = String::new();
        crate::text::push_char(&mut s, crate::text::hex_digit_exec(n as u8));
        proof {
            assert(s@ =~= spec_dec_digits(n as nat));
        }
        s
    } else {
        let mut s = usize_to_dec(n / 10);
        crate::text::push_char(&mut s, crate::text::hex_digit_exec((n % 10) as u8));
        proof {
            assert(s@ =~= spec_dec_digits(n as nat));
        }
        s
    }
}

/// The lines a cause chain is reported as: the failure itself; then, where
/// deeper causes exist, a heading and one line per cause, counted down.
pub open spec fn spec_cause_lines(causes: Seq<Seq<char>>) -> Seq<Seq<char>> {
    if causes.len() == 0 {
        Seq::empty()
    } else if causes.len() == 1 {
        seq![causes[0]]
    } else {
        seq![causes[0], "Caused by: "@] + Seq::new(
            (causes.len() - 1) as nat,
            |i: int| " "@ + spec_dec_digits((causes.len() - 1 - i) as nat) + ": "@ + causes[i + 1],
        )
    }
}

/// Renders a cause chain for the operator: the failure first, then each
/// deeper cause on its own counted line.
pub fn cause_report_lines(causes: &Vec<String>) -> (r: Vec<String>)
    ensures
        r.deep_view() == spec_cause_lines(causes.deep_view()),
{
    let ghost all = causes.deep_view();
    let n = causes.len();
    let mut out: Vec<String> = Vec::new();
    if n == 0 {
        proof {
            assert(out.deep_view() =~= spec_cause_lines(all));
        }
        return out;
    }
    out.push(causes[0].clone());
    if n == 1 {
        proof {
            assert(all[0] == causes@[0]@);
            assert(out.deep_view() =~= spec_cause_lines(all));
        }
        return out;
    }
    out.push("Caused by: ".to_owned());
    proof {
        assert(out.deep_view().len() == 2);
        assert(out.deep_view()[0] == causes@[0]@);
        assert(out.deep_view()[1] == "Caused by: "@);
        assert(out.deep_view() =~= spec_cause_lines(all).take(2));
    }
    let mut i: usize = 1;
    while i < n
        invariant
            n == causes@.len(),
            n >= 2,
            all == causes.deep_view(),
            all.len() == n,
            1 <= i <= n,
            out.deep_view() =~= spec_cause_lines(all).take(i + 1),
        decreases n - i,
    {
        let line = " ".to_owned().concat(usize_to_dec(n - i).as_str()).concat(": ").concat(
            causes[i].as_str(),
        );
        proof {
            assert(all[i as int] == causes@[i as int]@);
            assert(spec_cause_lines(all)[i + 1] == " "@ + spec_dec_digits((n - i) as nat) + ": "@
                + all[i as int]);
            assert(line@ == spec_cause_lines(all)[i + 1]);
        }
        let ghost before_out = out.deep_view();
        out.push(line);
        proof {
            assert(out@.len() == before_out.len() + 1);
            assert(out.deep_view()[before_out.len() as int] == line@);
            assert(forall|k: int|
                0 <= k < before_out.len() ==> #[trigger] out.deep_view()[k] == before_out[k]);
            assert(out.deep_view() =~= spec_cause_lines(all).take(i + 2));
        }
        i = i + 1;
    }
    proof {
        assert(spec_cause_lines(all).take(n + 1) =~= spec_cause_lines(all));
    }
    out
}

} // verus!
