//! Byte-level text utilities for the assembler: line splitting, token
//! trimming, token comparison and signed 16-bit integer literals. Each
//! executable function mirrors a spec function over `Seq<u8>` exactly.

use vstd::prelude::*;
use vstd::slice::{slice_subrange, slice_to_vec};

verus! {

/// ASCII whitespace, as `str::trim` strips it from ASCII text.
pub open spec fn is_space(b: u8) -> bool {
    b == 32 || (9 <= b <= 13)
}

/// The first index at which `c` occurs in `s`, or `-1` when it does not.
pub open spec fn find_byte(s: Seq<u8>, c: u8) -> int
    decreases s.len(),
{
    if s.len() == 0 {
        -1
    } else if s[0] == c {
        0
    } else {
        let r = find_byte(s.drop_first(), c);
        if r < 0 {
            -1
        } else {
            r + 1
        }
    }
}

pub proof fn lemma_find_byte(s: Seq<u8>, c: u8)
    ensures
        find_byte(s, c) >= 0 ==> find_byte(s, c) < s.len() && s[find_byte(s, c)] == c,
        find_byte(s, c) < 0 ==> forall|k: int| 0 <= k < s.len() ==> s[k] != c,
    decreases s.len(),
{
    if s.len() > 0 && s[0] != c {
        lemma_find_byte(s.drop_first(), c);
        if find_byte(s, c) < 0 {
            assert forall|k: int| 0 <= k < s.len() implies s[k] != c by {
                if k > 0 {
                    assert(s.drop_first()[k - 1] == s[k]);
                }
            }
        }
    }
}

/// How often `c` occurs in `s`.
pub open spec fn count_byte(s: Seq<u8>, c: u8) -> int
    decreases s.len(),
{
    if s.len() == 0 {
        0
    } else {
        count_byte(s.drop_first(), c) + if s[0] == c {
            1int
        } else {
            0int
        }
    }
}

pub proof fn lemma_count_byte_bounds(s: Seq<u8>, c: u8)
    ensures
        0 <= count_byte(s, c) <= s.len(),
    decreases s.len(),
{
    if s.len() > 0 {
        lemma_count_byte_bounds(s.drop_first(), c);
    }
}

/// A byte that occurs at all occurs at the first found position.
pub proof fn lemma_count_find(s: Seq<u8>, c: u8)
    ensures
        count_byte(s, c) > 0 ==> find_byte(s, c) >= 0,
    decreases s.len(),
{
    if s.len() > 0 && s[0] != c {
        lemma_count_find(s.drop_first(), c);
    }
}

/// Whether `c` occurs exactly `want` times in `s`.
pub fn has_byte_count(s: &[u8], c: u8, want: usize) -> (r: bool)
    ensures
        r == (count_byte(s@, c) == want as int),
{
    let n = count_byte_in(s, c);
    n == want
}

/// `s` split at every occurrence of `c`: one piece more than there are
/// occurrences, each piece free of `c`.
pub open spec fn split_on(s: Seq<u8>, c: u8) -> Seq<Seq<u8>>
    decreases s.len(),
    via split_on_decreases
{
    let i = find_byte(s, c);
    if i < 0 {
        seq![s]
    } else {
        seq![s.take(i)] + split_on(s.skip(i + 1), c)
    }
}

#[via_fn]
proof fn split_on_decreases(s: Seq<u8>, c: u8) {
    lemma_find_byte(s, c);
}

/// `s` without leading ASCII whitespace.
pub open spec fn trim_start_s(s: Seq<u8>) -> Seq<u8>
    decreases s.len(),
{
    if s.len() > 0 && is_space(s[0]) {
        trim_start_s(s.drop_first())
    } else {
        s
    }
}

/// `s` without trailing ASCII whitespace.
pub open spec fn trim_end_s(s: Seq<u8>) -> Seq<u8>
    decreases s.len(),
{
    if s.len() > 0 && is_space(s.last()) {
        trim_end_s(s.drop_last())
    } else {
        s
    }
}

/// `s` without leading or trailing ASCII whitespace.
pub open spec fn trim_s(s: Seq<u8>) -> Seq<u8> {
    trim_end_s(trim_start_s(s))
}

/// An ASCII decimal digit.
pub open spec fn is_digit(b: u8) -> bool {
    48 <= b <= 57
}

pub open spec fn all_digits(s: Seq<u8>) -> bool {
    forall|k: int| 0 <= k < s.len() ==> is_digit(#[trigger] s[k])
}

/// The value of a string of decimal digits, most significant first.
pub open spec fn digits_val(s: Seq<u8>) -> int
    decreases s.len(),
{
    if s.len() == 0 {
        0
    } else {
        digits_val(s.drop_last()) * 10 + (s.last() - 48)
    }
}

pub proof fn lemma_digits_val_nonneg(s: Seq<u8>)
    requires
        all_digits(s),
    ensures
        digits_val(s) >= 0,
    decreases s.len(),
{
    if s.len() > 0 {
        assert(all_digits(s.drop_last())) by {
            assert(forall|k: int|
                0 <= k < s.len() - 1 ==> s.drop_last()[k] == #[trigger] s[k]);
        }
        lemma_digits_val_nonneg(s.drop_last());
    }
}

/// A digit string is worth at least any of its prefixes.
pub proof fn lemma_digits_val_prefix_le(s: Seq<u8>, k: int)
    requires
        all_digits(s),
        0 <= k <= s.len(),
    ensures
        digits_val(s.take(k)) <= digits_val(s),
    decreases s.len() - k,
{
    if k < s.len() {
        lemma_digits_val_prefix_le(s, k + 1);
        assert(s.take(k + 1).drop_last() =~= s.take(k));
        assert(all_digits(s.take(k))) by {
            assert(forall|j: int| 0 <= j < k ==> s.take(k)[j] == #[trigger] s[j]);
        }
        lemma_digits_val_nonneg(s.take(k));
    } else {
        assert(s.take(k) =~= s);
    }
}

/// The digits of a signed decimal literal: everything after the optional
/// leading sign.
pub open spec fn sign_digits(s: Seq<u8>) -> Seq<u8> {
    if s.len() >= 1 && (s[0] == 43 || s[0] == 45) {
        s.drop_first()
    } else {
        s
    }
}

/// The value of `s` read as Rust's `i16::from_str` reads it: an optional
/// sign, then one or more decimal digits, rejected when absent, when a
/// non-digit appears, or when the value leaves the 16-bit range.
pub open spec fn spec_parse_i16(s: Seq<u8>) -> Option<i16> {
    let neg = s.len() >= 1 && s[0] == 45;
    let ds = sign_digits(s);
    if ds.len() == 0 || !all_digits(ds) {
        Option::None
    } else {
        let v = digits_val(ds);
        if neg {
            if v <= 32768 {
                Option::Some((-v) as i16)
            } else {
                Option::None
            }
        } else {
            if v <= 32767 {
                Option::Some(v as i16)
            } else {
                Option::None
            }
        }
    }
}

/// Whether two byte strings are equal.
pub fn bytes_eq(a: &[u8], b: &[u8]) -> (r: bool)
    ensures
        r == (a@ == b@),
{
    if a.len() != b.len() {
        assert(a@.len() != b@.len());
        return false;
    }
    let n = a.len();
    let mut i: usize = 0;
    while i < n
        invariant
            i <= n,
            n == a@.len() == b@.len(),
            forall|k: int| 0 <= k < i ==> a@[k] == b@[k],
        decreases n - i,
    {
        if a[i] != b[i] {
            assert(a@[i as int] != b@[i as int]);
            return false;
        }
        i += 1;
    }
    assert(a@ =~= b@);
    true
}

/// First occurrence of `c` in `s`, if any.
pub fn find_byte_at(s: &[u8], c: u8) -> (r: Option<usize>)
    ensures
        match r {
            Option::Some(i) => find_byte(s@, c) == i as int && i < s@.len(),
            Option::None => find_byte(s@, c) < 0,
        },
    decreases s@.len(),
{
    proof {
        lemma_find_byte(s@, c);
    }
    if s.len() == 0 {
        Option::None
    } else if s[0] == c {
        Option::Some(0)
    } else {
        let rest = slice_subrange(s, 1, s.len());
        assert(rest@ =~= s@.drop_first());
        match find_byte_at(rest, c) {
            Option::Some(i) => Option::Some(i + 1),
            Option::None => Option::None,
        }
    }
}

/// How often `c` occurs in `s`.
pub fn count_byte_in(s: &[u8], c: u8) -> (r: usize)
    ensures
        r as int == count_byte(s@, c),
    decreases s@.len(),
{
    proof {
        lemma_count_byte_bounds(s@, c);
    }
    if s.len() == 0 {
        0
    } else {
        let rest = slice_subrange(s, 1, s.len());
        assert(rest@ =~= s@.drop_first());
        proof {
            lemma_count_byte_bounds(rest@, c);
        }
        let n = count_byte_in(rest, c);
        if s[0] == c {
            n + 1
        } else {
            n
        }
    }
}

/// Split `s` into the pieces between occurrences of `c`.
pub fn split_bytes(s: &[u8], c: u8) -> (r: Vec<Vec<u8>>)
    ensures
        r.deep_view() == split_on(s@, c),
        r@.len() >= 1,
    decreases s@.len(),
{
    match find_byte_at(s, c) {
        Option::None => {
            let mut out: Vec<Vec<u8>> = Vec::new();
            out.push(slice_to_vec(s));
            proof {
                assert(out.deep_view() =~~= split_on(s@, c));
            }
            out
        }
        Option::Some(i) => {
            let n = s.len();
            assert(i < n);
            let head = slice_to_vec(slice_subrange(s, 0, i));
            let tail = slice_subrange(s, i + 1, n);
            assert(tail@ =~= s@.skip(i + 1));
            let mut rest = split_bytes(tail, c);
            rest.insert(0, head);
            proof {
                assert(head@ =~= s@.take(i as int));
                assert(rest.deep_view() =~~= split_on(s@, c));
            }
            rest
        }
    }
}

/// `s` without leading ASCII whitespace.
pub fn trim_start_bytes<'a>(s: &'a [u8]) -> (r: &'a [u8])
    ensures
        r@ == trim_start_s(s@),
    decreases s@.len(),
{
    if s.len() > 0 && is_space_byte(s[0]) {
        let rest = slice_subrange(s, 1, s.len());
        assert(rest@ =~= s@.drop_first());
        trim_start_bytes(rest)
    } else {
        s
    }
}

/// `s` without trailing ASCII whitespace.
pub fn trim_end_bytes<'a>(s: &'a [u8]) -> (r: &'a [u8])
    ensures
        r@ == trim_end_s(s@),
    decreases s@.len(),
{
    if s.len() > 0 && is_space_byte(s[s.len() - 1]) {
        let rest = slice_subrange(s, 0, s.len() - 1);
        assert(rest@ =~= s@.drop_last());
        trim_end_bytes(rest)
    } else {
        s
    }
}

/// `s` without leading or trailing ASCII whitespace.
pub fn trim_bytes<'a>(s: &'a [u8]) -> (r: &'a [u8])
    ensures
        r@ == trim_s(s@),
{
    trim_end_bytes(trim_start_bytes(s))
}

fn is_space_byte(b: u8) -> (r: bool)
    ensures
        r == is_space(b),
{
    b == 32 || (9 <= b && b <= 13)
}

/// Parse a signed 16-bit decimal literal, exactly as `i16::from_str`
/// accepts or rejects one.
pub fn parse_i16_bytes(s: &[u8]) -> (r: Option<i16>)
    ensures
        r == spec_parse_i16(s@),
{
    let mut i: usize = 0;
    let mut neg = false;
    if s.len() > 0 && (s[0] == 43 || s[0] == 45) {
        neg = s[0] == 45;
        i = 1;
    }
    let ghost ds = sign_digits(s@);
    assert(ds =~= s@.subrange(i as int, s@.len() as int));
    if i == s.len() {
        return Option::None;
    }
    let n = s.len();
    let mut j = i;
    let mut mag: u32 = 0;
    while j < n
        invariant
            i <= j <= n,
            n == s@.len(),
            i <= 1,
            ds == sign_digits(s@),
            ds =~= s@.subrange(i as int, n as int),
            all_digits(s@.subrange(i as int, j as int)),
            mag <= 32768,
            mag as int == digits_val(s@.subrange(i as int, j as int)),
        decreases n - j,
    {
        let b = s[j];
        if b < 48 || b > 57 {
            proof {
                assert(0 <= j - i < ds.len());
                assert(ds[j - i] == s@[j as int]);
                assert(!is_digit(s@[j as int]));
                assert(!all_digits(ds));
                assert(spec_parse_i16(s@) is None);
            }
            return Option::None;
        }
        mag = mag * 10 + (b - 48) as u32;
        proof {
            assert(s@.subrange(i as int, j + 1).drop_last() =~= s@.subrange(i as int, j as int));
            assert(s@.subrange(i as int, j + 1).last() == s@[j as int]);
            assert(all_digits(s@.subrange(i as int, j + 1))) by {
                assert(forall|k: int|
                    0 <= k < j + 1 - i ==> s@.subrange(i as int, j + 1)[k] == #[trigger] s@[
                        i + k
                    ]);
            }
        }
        if mag > 32768 {
            proof {
                if all_digits(ds) {
                    lemma_digits_val_prefix_le(ds, j + 1 - i);
                    assert(ds.take(j + 1 - i) =~= s@.subrange(i as int, j + 1));
                    assert(digits_val(ds) >= digits_val(s@.subrange(i as int, j + 1)));
                    assert(digits_val(ds) > 32768);
                }
                assert(spec_parse_i16(s@) is None);
            }
            return Option::None;
        }
        j += 1;
    }
    assert(ds =~= s@.subrange(i as int, n as int));
    if neg {
        Option::Some((-(mag as i32)) as i16)
    } else {
        if mag > 32767 {
            return Option::None;
        }
        Option::Some(mag as i16)
    }
}

/// Whether `t` is the two-byte token `a b`.
pub fn tok2(t: &[u8], a: u8, b: u8) -> (r: bool)
    ensures
        r == (t@ == seq![a, b]),
{
    if t.len() == 2 && t[0] == a && t[1] == b {
        assert(t@ =~= seq![a, b]);
        true
    } else {
        assert(t@ != seq![a, b]) by {
            if t@.len() == 2 {
                assert(t@[0] == t[0 as int] && t@[1] == t[1 as int]);
            }
        }
        false
    }
}

/// Whether `t` is the three-byte token `a b c`.
pub fn tok3(t: &[u8], a: u8, b: u8, c: u8) -> (r: bool)
    ensures
        r == (t@ == seq![a, b, c]),
{
    if t.len() == 3 && t[0] == a && t[1] == b && t[2] == c {
        assert(t@ =~= seq![a, b, c]);
        true
    } else {
        assert(t@ != seq![a, b, c]) by {
            if t@.len() == 3 {
                assert(t@[0] == t[0 as int] && t@[1] == t[1 as int] && t@[2] == t[2 as int]);
            }
        }
        false
    }
}

/// Whether `t` is the four-byte token `a b c d`.
pub fn tok4(t: &[u8], a: u8, b: u8, c: u8, d: u8) -> (r: bool)
    ensures
        r == (t@ == seq![a, b, c, d]),
{
    if t.len() == 4 && t[0] == a && t[1] == b && t[2] == c && t[3] == d {
        assert(t@ =~= seq![a, b, c, d]);
        true
    } else {
        assert(t@ != seq![a, b, c, d]) by {
            if t@.len() == 4 {
                assert(t@[0] == t[0 as int] && t@[1] == t[1 as int] && t@[2] == t[2 as int]
                    && t@[3] == t[3 as int]);
            }
        }
        false
    }
}

/// Whether `t` is the five-byte token `a b c d e`.
pub fn tok5(t: &[u8], a: u8, b: u8, c: u8, d: u8, e: u8) -> (r: bool)
    ensures
        r == (t@ == seq![a, b, c, d, e]),
{
    if t.len() == 5 && t[0] == a && t[1] == b && t[2] == c && t[3] == d && t[4] == e {
        assert(t@ =~= seq![a, b, c, d, e]);
        true
    } else {
        assert(t@ != seq![a, b, c, d, e]) by {
            if t@.len() == 5 {
                assert(t@[0] == t[0 as int] && t@[1] == t[1 as int] && t@[2] == t[2 as int]
                    && t@[3] == t[3 as int] && t@[4] == t[4 as int]);
            }
        }
        false
    }
}

} // verus!
