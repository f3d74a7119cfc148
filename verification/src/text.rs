//! Verified text utilities shared by the codec, the selector and the cache.

use vstd::prelude::*;
use vstd::string::{StringExecFns, StringSliceAdditionalSpecFns};

verus! {

/// True when `p` is a prefix of `s`.
pub open spec fn has_prefix(s: Seq<char>, p: Seq<char>) -> bool {
    p.len() <= s.len() && s.subrange(0, p.len() as int) == p
}

/// True when `sub` occurs somewhere inside `s`.
pub open spec fn has_substring(s: Seq<char>, sub: Seq<char>) -> bool {
    exists|i: int|
        0 <= i <= s.len() - sub.len() && #[trigger] s.subrange(i, i + sub.len() as int) == sub
}

/// Character equality of two string slices.
pub fn str_eq(a: &str, b: &str) -> (r: bool)
    ensures
        r == (a@ == b@),
{
    let owned_a = a.to_owned();
    let owned_b = b.to_owned();
    owned_a == owned_b
}

/// Whether `s` starts with the prefix `p`, by characters.
pub fn starts_with(s: &str, p: &str) -> (r: bool)
    ensures
        r == has_prefix(s@, p@),
{
    let n = p.unicode_len();
    if n > s.unicode_len() {
        return false;
    }
    let head = s.substring_char(0, n);
    str_eq(head, p)
}

/// Whether `sub` occurs inside `s`, by characters.
pub fn contains_substring(s: &str, sub: &str) -> (r: bool)
    ensures
        r == has_substring(s@, sub@),
{
    let n = s.unicode_len();
    let m = sub.unicode_len();
    if m > n {
        assert(!has_substring(s@, sub@));
        return false;
    }
    if m == 0 {
        assert(s@.subrange(0, 0 + sub@.len() as int) =~= sub@);
        return true;
    }
    let mut i: usize = 0;
    while i <= n - m
        invariant
            1 <= m <= n,
            n == s@.len(),
            m == sub@.len(),
            0 <= i <= n - m + 1,
            forall|j: int| 0 <= j < i ==> #[trigger] s@.subrange(j, j + m as int) != sub@,
        decreases n - m - i + 1,
    {
        let window = s.substring_char(i, i + m);
        if str_eq(window, sub) {
            assert(s@.subrange(i as int, i + m as int) == sub@);
            return true;
        }
        i = i + 1;
    }
    false
}

/// How many times `c` occurs in `s`.
pub open spec fn count_occurrences(s: Seq<char>, c: char) -> nat
    decreases s.len(),
{
    if s.len() == 0 {
        0
    } else {
        (if s[0] == c {
            1nat
        } else {
            0nat
        }) + count_occurrences(s.drop_first(), c)
    }
}

/// Index of the first occurrence of `c` in `s`; `s.len()` when `c` is absent.
pub open spec fn first_occurrence(s: Seq<char>, c: char) -> int
    decreases s.len(),
{
    if s.len() == 0 {
        0
    } else if s[0] == c {
        0
    } else {
        1 + first_occurrence(s.drop_first(), c)
    }
}

pub proof fn lemma_count_push(s: Seq<char>, x: char, c: char)
    ensures
        count_occurrences(s.push(x), c) == count_occurrences(s, c) + (if x == c {
            1int
        } else {
            0int
        }),
    decreases s.len(),
{
    if s.len() == 0 {
        assert(s.push(x).drop_first() =~= s);
    } else {
        lemma_count_push(s.drop_first(), x, c);
        assert(s.push(x).drop_first() =~= s.drop_first().push(x));
    }
}

pub proof fn lemma_first_push(s: Seq<char>, x: char, c: char)
    ensures
        count_occurrences(s, c) > 0 ==> first_occurrence(s.push(x), c) == first_occurrence(s, c),
        count_occurrences(s, c) == 0 && x == c ==> first_occurrence(s.push(x), c) == s.len(),
        count_occurrences(s, c) == 0 && x != c ==> first_occurrence(s.push(x), c) == s.len() + 1,
    decreases s.len(),
{
    if s.len() == 0 {
        assert(s.push(x).drop_first() =~= s);
        assert(s.push(x)[0] == x);
        assert(first_occurrence(s, c) == 0);
    } else {
        lemma_first_push(s.drop_first(), x, c);
        assert(s.push(x).drop_first() =~= s.drop_first().push(x));
        assert(count_occurrences(s, c) == 0 ==> s[0] != c && count_occurrences(
            s.drop_first(),
            c,
        ) == 0);
        assert(s.push(x)[0] == s[0]);
        if count_occurrences(s, c) == 0 && x != c {
            assert(first_occurrence(s.push(x), c) == 1 + first_occurrence(
                s.push(x).drop_first(),
                c,
            ));
            assert(first_occurrence(s.drop_first().push(x), c) == s.drop_first().len() + 1);
        }
    }
}

pub proof fn lemma_first_occurrence_props(s: Seq<char>, c: char)
    ensures
        count_occurrences(s, c) == 0 ==> first_occurrence(s, c) == s.len(),
        count_occurrences(s, c) > 0 ==> 0 <= first_occurrence(s, c) < s.len() && s[first_occurrence(
            s,
            c,
        )] == c,
    decreases s.len(),
{
    if s.len() > 0 {
        lemma_first_occurrence_props(s.drop_first(), c);
    }
}

pub proof fn lemma_count_concat(a: Seq<char>, b: Seq<char>, c: char)
    ensures
        count_occurrences(a + b, c) == count_occurrences(a, c) + count_occurrences(b, c),
    decreases a.len(),
{
    if a.len() == 0 {
        assert(a + b =~= b);
    } else {
        lemma_count_concat(a.drop_first(), b, c);
        assert((a + b).drop_first() =~= a.drop_first() + b);
    }
}

pub proof fn lemma_first_concat_absent(a: Seq<char>, b: Seq<char>, c: char)
    requires
        count_occurrences(a, c) == 0,
    ensures
        first_occurrence(a + b, c) == a.len() + first_occurrence(b, c),
    decreases a.len(),
{
    if a.len() == 0 {
        assert(a + b =~= b);
    } else {
        lemma_first_concat_absent(a.drop_first(), b, c);
        assert((a + b).drop_first() =~= a.drop_first() + b);
        assert((a + b)[0] == a[0]);
    }
}

/// Scans `s` for `c`: returns how often it occurs and the index of its first
/// occurrence (the length of `s` when it is absent), counting characters.
pub fn scan_char(s: &str, c: char) -> (r: (usize, usize))
    ensures
        r.0 == count_occurrences(s@, c),
        r.1 == first_occurrence(s@, c),
{
    let n = s.unicode_len();
    let mut count: usize = 0;
    let mut first: usize = n;
    let mut seen: bool = false;
    let mut i: usize = 0;
    proof {
        assert(s@.take(0) =~= Seq::<char>::empty());
    }
    while i < n
        invariant
            n == s@.len(),
            0 <= i <= n,
            count <= i,
            count == count_occurrences(s@.take(i as int), c),
            seen == (count > 0),
            seen ==> first == first_occurrence(s@.take(i as int), c),
            !seen ==> first == n,
        decreases n - i,
    {
        let ch = s.get_char(i);
        proof {
            assert(s@.take(i + 1) =~= s@.take(i as int).push(s@[i as int]));
            lemma_count_push(s@.take(i as int), s@[i as int], c);
            lemma_first_push(s@.take(i as int), s@[i as int], c);
        }
        if ch == c {
            if !seen {
                first = i;
                seen = true;
            }
            count = count + 1;
        }
        i = i + 1;
    }
    proof {
        assert(s@.take(n as int) =~= s@);
        if !seen {
            lemma_first_occurrence_props(s@, c);
        }
    }
    (count, first)
}

/// The whitespace characters the codec strips from field edges.
pub open spec fn is_space_char(c: char) -> bool {
    c == ' ' || c == '\t' || c == '\r' || c == '\n'
}

pub open spec fn trim_front(s: Seq<char>) -> Seq<char>
    decreases s.len(),
{
    if s.len() > 0 && is_space_char(s[0]) {
        trim_front(s.drop_first())
    } else {
        s
    }
}

pub open spec fn trim_back(s: Seq<char>) -> Seq<char>
    decreases s.len(),
{
    if s.len() > 0 && is_space_char(s.last()) {
        trim_back(s.drop_last())
    } else {
        s
    }
}

/// `s` with leading and trailing whitespace removed.
pub open spec fn spec_trim(s: Seq<char>) -> Seq<char> {
    trim_back(trim_front(s))
}

fn is_space(c: char) -> (r: bool)
    ensures
        r == is_space_char(c),
{
    c == ' ' || c == '\t' || c == '\r' || c == '\n'
}

proof fn lemma_trim_front_skip(s: Seq<char>, j: int)
    requires
        0 <= j <= s.len(),
        forall|k: int| 0 <= k < j ==> is_space_char(s[k]),
    ensures
        trim_front(s) == trim_front(s.skip(j)),
    decreases j,
{
    if j > 0 {
        assert(s.skip(0) =~= s);
        assert(s.drop_first() =~= s.skip(1));
        lemma_trim_front_skip(s.drop_first(), j - 1);
        assert(s.drop_first().skip(j - 1) =~= s.skip(j));
    } else {
        assert(s.skip(0) =~= s);
    }
}

proof fn lemma_trim_back_take(s: Seq<char>, j: int)
    requires
        0 <= j <= s.len(),
        forall|k: int| j <= k < s.len() ==> is_space_char(s[k]),
    ensures
        trim_back(s) == trim_back(s.take(j)),
    decreases s.len() - j,
{
    if j < s.len() {
        assert(s.drop_last() =~= s.take(s.len() - 1));
        lemma_trim_back_take(s.drop_last(), j);
        assert(s.drop_last().take(j) =~= s.take(j));
    } else {
        assert(s.take(j) =~= s);
    }
}

/// The slice of `s` with leading and trailing whitespace removed.
pub fn trim_chars<'a>(s: &'a str) -> (r: &'a str)
    ensures
        r@ == spec_trim(s@),
{
    let n = s.unicode_len();
    let mut lo: usize = 0;
    while lo < n && is_space(s.get_char(lo))
        invariant
            n == s@.len(),
            0 <= lo <= n,
            forall|k: int| 0 <= k < lo ==> is_space_char(s@[k]),
        decreases n - lo,
    {
        lo = lo + 1;
    }
    proof {
        lemma_trim_front_skip(s@, lo as int);
        if lo < n {
            assert(trim_front(s@.skip(lo as int)) == s@.skip(lo as int));
        } else {
            assert(s@.skip(lo as int) =~= Seq::<char>::empty());
        }
    }
    let mut hi: usize = n;
    while hi > lo && is_space(s.get_char(hi - 1))
        invariant
            n == s@.len(),
            0 <= lo <= hi <= n,
            trim_front(s@) == s@.skip(lo as int),
            forall|k: int| hi <= k < n ==> is_space_char(s@[k]),
        decreases hi,
    {
        hi = hi - 1;
    }
    proof {
        let t = s@.skip(lo as int);
        assert(forall|k: int|
            hi - lo <= k < t.len() ==> is_space_char(#[trigger] t[k]) && t[k] == s@[k + lo]);
        lemma_trim_back_take(t, hi - lo);
        if hi > lo {
            assert(!is_space_char(t.take(hi - lo).last()));
            assert(trim_back(t.take(hi - lo)) == t.take(hi - lo));
        } else {
            assert(t.take(hi - lo) =~= Seq::<char>::empty());
        }
        assert(t.take(hi - lo) =~= s@.subrange(lo as int, hi as int));
    }
    s.substring_char(lo, hi)
}

/// ASCII-lowers one byte: upper-case letters gain 32, all else is kept.
pub open spec fn lower_byte(b: u8) -> u8 {
    if 65 <= b && b <= 90 {
        (b + 32) as u8
    } else {
        b
    }
}

/// ASCII-lowercased form of a byte string.
pub open spec fn lower_bytes(s: Seq<u8>) -> Seq<u8> {
    s.map_values(|b: u8| lower_byte(b))
}

fn lower_byte_exec(b: u8) -> (r: u8)
    ensures
        r == lower_byte(b),
{
    if 65 <= b && b <= 90 {
        b + 32
    } else {
        b
    }
}

/// Byte equality of two strings once ASCII letters are lowered.
pub fn eq_ignore_ascii_case(s: &str, t: &str) -> (r: bool)
    ensures
        r == (lower_bytes(s.spec_bytes()) == lower_bytes(t.spec_bytes())),
{
    let a = s.as_bytes();
    let b = t.as_bytes();
    if a.len() != b.len() {
        proof {
            assert(lower_bytes(a@).len() == a@.len());
            assert(lower_bytes(b@).len() == b@.len());
        }
        return false;
    }
    let n = a.len();
    let mut i: usize = 0;
    while i < n
        invariant
            n == a@.len() == b@.len(),
            a@ == s.spec_bytes(),
            b@ == t.spec_bytes(),
            0 <= i <= n,
            forall|j: int| 0 <= j < i ==> lower_byte(a@[j]) == lower_byte(b@[j]),
        decreases n - i,
    {
        if lower_byte_exec(a[i]) != lower_byte_exec(b[i]) {
            proof {
                assert(lower_bytes(a@)[i as int] == lower_byte(a@[i as int]));
                assert(lower_bytes(b@)[i as int] == lower_byte(b@[i as int]));
                assert(lower_bytes(a@) != lower_bytes(b@));
            }
            return false;
        }
        i = i + 1;
    }
    assert(lower_bytes(a@) =~= lower_bytes(b@));
    true
}

/// The lower-case hex digit for one value below sixteen.
pub open spec fn hex_digit(n: u8) -> char {
    if n == 0 {
        '0'
    } else if n == 1 {
        '1'
    } else if n == 2 {
        '2'
    } else if n == 3 {
        '3'
    } else if n == 4 {
        '4'
    } else if n == 5 {
        '5'
    } else if n == 6 {
        '6'
    } else if n == 7 {
        '7'
    } else if n == 8 {
        '8'
    } else if n == 9 {
        '9'
    } else if n == 10 {
        'a'
    } else if n == 11 {
        'b'
    } else if n == 12 {
        'c'
    } else if n == 13 {
        'd'
    } else if n == 14 {
        'e'
    } else {
        'f'
    }
}

/// Lower-case hex encoding of a byte string, two digits a byte.
pub open spec fn spec_hex_lower(data: Seq<u8>) -> Seq<char>
    decreases data.len(),
{
    if data.len() == 0 {
        Seq::empty()
    } else {
        seq![hex_digit(data[0] / 16), hex_digit(data[0] % 16)] + spec_hex_lower(data.drop_first())
    }
}

pub fn hex_digit_exec(n: u8) -> (r: char)
    requires
        n < 16,
    ensures
        r == hex_digit(n),
{
    match n {
        0 => '0',
        1 => '1',
        2 => '2',
        3 => '3',
        4 => '4',
        5 => '5',
        6 => '6',
        7 => '7',
        8 => '8',
        9 => '9',
        10 => 'a',
        11 => 'b',
        12 => 'c',
        13 => 'd',
        14 => 'e',
        _ => 'f',
    }
}

/// Lower-case hex encoding of a byte string, two digits a byte.
pub fn to_hex_lower(data: &[u8]) -> (r: String)
    ensures
        r@ == spec_hex_lower(data@),
{
    let n = data.len();
    let mut res = String::new();
    let mut i: usize = 0;
    proof {
        assert(data@.skip(0) =~= data@);
    }
    while i < n
        invariant
            n == data@.len(),
            0 <= i <= n,
            res@ + spec_hex_lower(data@.skip(i as int)) == spec_hex_lower(data@),
        decreases n - i,
    {
        let b = data[i];
        assert(b / 16 < 16);
        let hi = hex_digit_exec(b / 16);
        let lo = hex_digit_exec(b % 16);
        proof {
            let rest = data@.skip(i as int);
            assert(rest[0] == data@[i as int]);
            assert(rest.drop_first() =~= data@.skip(i + 1));
            assert(res@.push(hi).push(lo) =~= res@ + seq![hi, lo]);
            assert((res@ + seq![hi, lo]) + spec_hex_lower(data@.skip(i + 1)) =~= res@ + (seq![
                hi,
                lo,
            ] + spec_hex_lower(data@.skip(i + 1))));
        }
        push_char(&mut res, hi);
        push_char(&mut res, lo);
        i = i + 1;
    }
    proof {
        assert(data@.skip(n as int) =~= Seq::<u8>::empty());
        assert(res@ + Seq::<char>::empty() =~= res@);
    }
    res
}

/// Index of the first occurrence of `sub` inside `s`; negative when `sub`
/// does not occur. The empty pattern occurs at the front.
pub open spec fn first_substring(s: Seq<char>, sub: Seq<char>) -> int
    decreases s.len(),
{
    if sub.len() > s.len() {
        -1
    } else if sub.len() == 0 {
        0
    } else if s.subrange(0, sub.len() as int) == sub {
        0
    } else {
        let r = first_substring(s.drop_first(), sub);
        if r == -1 {
            -1
        } else {
            1 + r
        }
    }
}

proof fn lemma_first_substring_at(s: Seq<char>, sub: Seq<char>, i: int)
    requires
        sub.len() > 0,
        0 <= i,
        i + sub.len() <= s.len(),
        s.subrange(i, i + sub.len() as int) == sub,
        forall|j: int| 0 <= j < i ==> #[trigger] s.subrange(j, j + sub.len() as int) != sub,
    ensures
        first_substring(s, sub) == i,
    decreases i,
{
    if i == 0 {
    } else {
        assert(s.subrange(0, 0 + sub.len() as int) != sub);
        assert(s.subrange(0, sub.len() as int) == s.subrange(0, 0 + sub.len() as int));
        let t = s.drop_first();
        assert forall|j: int|
            0 <= j < i - 1 implies #[trigger] t.subrange(j, j + sub.len() as int) != sub by {
            assert(t.subrange(j, j + sub.len() as int) =~= s.subrange(
                j + 1,
                j + 1 + sub.len() as int,
            ));
        }
        assert(t.subrange(i - 1, i - 1 + sub.len() as int) =~= s.subrange(i, i + sub.len() as int));
        lemma_first_substring_at(t, sub, i - 1);
    }
}

proof fn lemma_first_substring_absent(s: Seq<char>, sub: Seq<char>)
    requires
        sub.len() > 0,
        forall|j: int|
            0 <= j <= s.len() - sub.len() ==> #[trigger] s.subrange(j, j + sub.len() as int) != sub,
    ensures
        first_substring(s, sub) == -1,
    decreases s.len(),
{
    if sub.len() <= s.len() {
        assert(s.subrange(0, 0 + sub.len() as int) != sub);
        assert(s.subrange(0, sub.len() as int) == s.subrange(0, 0 + sub.len() as int));
        let t = s.drop_first();
        assert forall|j: int|
            0 <= j <= t.len() - sub.len() implies #[trigger] t.subrange(j, j + sub.len() as int)
            != sub by {
            assert(t.subrange(j, j + sub.len() as int) =~= s.subrange(
                j + 1,
                j + 1 + sub.len() as int,
            ));
        }
        lemma_first_substring_absent(t, sub);
    }
}

/// Everything the first occurrence's index means: where it is non-negative it
/// points at a match and nothing matches earlier; where it is negative
/// nothing matches at all.
pub proof fn lemma_first_substring_props(s: Seq<char>, sub: Seq<char>)
    ensures
        first_substring(s, sub) >= 0 ==> ({
            let i = first_substring(s, sub);
            &&& i + sub.len() <= s.len()
            &&& s.subrange(i, i + sub.len() as int) == sub
            &&& forall|j: int| 0 <= j < i ==> #[trigger] s.subrange(j, j + sub.len() as int) != sub
        }),
        first_substring(s, sub) < 0 ==> first_substring(s, sub) == -1 && !has_substring(s, sub),
    decreases s.len(),
{
    if sub.len() > s.len() {
        assert(!has_substring(s, sub));
    } else if sub.len() == 0 {
        assert(s.subrange(0, 0) =~= sub);
    } else if s.subrange(0, sub.len() as int) == sub {
    } else {
        let t = s.drop_first();
        lemma_first_substring_props(t, sub);
        assert forall|j: int|
            1 <= j <= s.len() - sub.len() implies #[trigger] s.subrange(j, j + sub.len() as int)
            == t.subrange(j - 1, j - 1 + sub.len() as int) by {
            assert(s.subrange(j, j + sub.len() as int) =~= t.subrange(
                j - 1,
                j - 1 + sub.len() as int,
            ));
        }
        if first_substring(t, sub) == -1 {
            assert(!has_substring(s, sub)) by {
                if has_substring(s, sub) {
                    let w = choose|w: int|
                        0 <= w <= s.len() - sub.len() && #[trigger] s.subrange(
                            w,
                            w + sub.len() as int,
                        ) == sub;
                    assert(w >= 1);
                    assert(t.subrange(w - 1, w - 1 + sub.len() as int) == sub);
                    assert(has_substring(t, sub));
                    lemma_first_substring_props(t, sub);
                }
            }
        } else {
            let r = first_substring(t, sub);
            assert(s.subrange(r + 1, r + 1 + sub.len() as int) == t.subrange(
                r,
                r + sub.len() as int,
            ));
            assert forall|j: int|
                0 <= j < r + 1 implies #[trigger] s.subrange(j, j + sub.len() as int) != sub by {
                if j >= 1 {
                    assert(t.subrange(j - 1, j - 1 + sub.len() as int) != sub);
                }
            }
        }
    }
}

/// Index of the first occurrence of `sub` inside `s`, by characters.
pub fn find_substring(s: &str, sub: &str) -> (r: Option<usize>)
    ensures
        r matches Some(i) ==> first_substring(s@, sub@) == i,
        r is None ==> first_substring(s@, sub@) == -1 && !has_substring(s@, sub@),
{
    let n = s.unicode_len();
    let m = sub.unicode_len();
    if m > n {
        proof {
            assert(!has_substring(s@, sub@));
            lemma_first_substring_props(s@, sub@);
        }
        return None;
    }
    if m == 0 {
        assert(s@.subrange(0, 0 + sub@.len() as int) =~= sub@);
        return Some(0);
    }
    let mut i: usize = 0;
    while i <= n - m
        invariant
            1 <= m <= n,
            n == s@.len(),
            m == sub@.len(),
            0 <= i <= n - m + 1,
            forall|j: int| 0 <= j < i ==> #[trigger] s@.subrange(j, j + m as int) != sub@,
        decreases n - m - i + 1,
    {
        let window = s.substring_char(i, i + m);
        if str_eq(window, sub) {
            proof {
                assert(s@.subrange(i as int, i + m as int) == sub@);
                lemma_first_substring_at(s@, sub@, i as int);
            }
            return Some(i);
        }
        i = i + 1;
    }
    proof {
        lemma_first_substring_absent(s@, sub@);
        lemma_first_substring_props(s@, sub@);
    }
    None
}

/// The items joined with commas, in order.
pub open spec fn spec_join_comma(items: Seq<Seq<char>>) -> Seq<char>
    decreases items.len(),
{
    if items.len() == 0 {
        Seq::empty()
    } else if items.len() == 1 {
        items[0]
    } else {
        items[0] + ","@ + spec_join_comma(items.drop_first())
    }
}

pub proof fn lemma_join_comma_push(items: Seq<Seq<char>>, x: Seq<char>)
    ensures
        items.len() == 0 ==> spec_join_comma(items.push(x)) == x,
        items.len() > 0 ==> spec_join_comma(items.push(x)) == spec_join_comma(items) + ","@ + x,
    decreases items.len(),
{
    if items.len() == 0 {
        assert(items.push(x)[0] == x);
    } else {
        lemma_join_comma_push(items.drop_first(), x);
        assert(items.push(x).drop_first() =~= items.drop_first().push(x));
        assert(items.push(x)[0] == items[0]);
        if items.len() == 1 {
            assert(spec_join_comma(items) == items[0]);
        } else {
            assert((items[0] + ","@ + spec_join_comma(items.drop_first())) + ","@ + x =~= items[0]
                + ","@ + (spec_join_comma(items.drop_first()) + ","@ + x));
        }
    }
}

/// Joins strings with commas, in order.
pub fn join_comma(items: &Vec<String>) -> (r: String)
    ensures
        r@ == spec_join_comma(items.deep_view()),
{
    let ghost all = items.deep_view();
    let n = items.len();
    let mut out = String::new();
    let mut i: usize = 0;
    proof {
        assert(all.len() == items@.len());
        assert(all.take(0) =~= Seq::<Seq<char>>::empty());
    }
    while i < n
        invariant
            n == items@.len(),
            all == items.deep_view(),
            all.len() == n,
            0 <= i <= n,
            out@ == spec_join_comma(all.take(i as int)),
        decreases n - i,
    {
        proof {
            assert(all[i as int] == items@[i as int].deep_view());
            assert(all.take(i + 1) =~= all.take(i as int).push(all[i as int]));
            lemma_join_comma_push(all.take(i as int), all[i as int]);
        }
        if i > 0 {
            push_char(&mut out, ',');
            proof {
                assert(out@ =~= spec_join_comma(all.take(i as int)) + ","@) by {
                    reveal_strlit(",");
                }
            }
        }
        let item = &items[i];
        let mut next = out;
        next.append(item.as_str());
        out = next;
        i = i + 1;
    }
    proof {
        assert(all.take(n as int) =~= all);
    }
    out
}

/// A copy of an optional string.
pub fn clone_opt_string(o: &Option<String>) -> (r: Option<String>)
    ensures
        r == *o,
{
    match o {
        Some(s) => Some(s.clone()),
        None => None,
    }
}

/// Relies on String::push: appends exactly one character.
#[verifier::external_body]
pub fn push_char(s: &mut String, c: char)
    ensures
        final(s)@ == old(s)@.push(c),
{
    s.push(c)
}

} // verus!
