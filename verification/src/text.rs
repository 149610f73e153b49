//! The string payload and character-level helpers.
//!
//! Identifiers own their text as a `smol_str::SmolStr`, a compact immutable
//! string. Verus sees that type as opaque, so the trusted items below declare
//! it and name the characters it holds; everything else in this module is
//! verified character arithmetic on ordinary string slices.

use vstd::prelude::*;

verus! {

use core::cmp::Ordering;
use smol_str::SmolStr;
use vstd::string::StrSliceExecFns;

/// `smol_str::SmolStr` holds every identifier's payload. Declared so that it
/// can stand in fields; its contents are named by `chars_of`.
#[verifier::external_type_specification]
#[verifier::external_body]
pub struct ExSmolStr(SmolStr);

/// The characters held by a `SmolStr`.
pub uninterp spec fn chars_of(s: SmolStr) -> Seq<char>;

/// Relies on `SmolStr::new`: the new value holds exactly the characters of
/// `text` (the constructor copies the bytes of `text.as_ref()` unchanged).
#[verifier::external_body]
pub fn smol_new(text: &str) -> (r: SmolStr)
    ensures
        chars_of(r) == text@,
{
    SmolStr::new(text)
}

/// Relies on `SmolStr::as_str`: returns a slice of exactly the held characters.
#[verifier::external_body]
pub fn smol_as_str(s: &SmolStr) -> (r: &str)
    ensures
        r@ == chars_of(*s),
{
    s.as_str()
}

/// Relies on `Clone for SmolStr`: the clone holds the same characters.
#[verifier::external_body]
pub fn smol_clone(s: &SmolStr) -> (r: SmolStr)
    ensures
        chars_of(r) == chars_of(*s),
{
    s.clone()
}

/// `p` is a leading segment of `s`.
pub open spec fn starts_with(s: Seq<char>, p: Seq<char>) -> bool {
    p.len() <= s.len() && s.take(p.len() as int) == p
}

/// Literal prefix test on string slices.
pub fn str_starts_with(s: &str, p: &str) -> (b: bool)
    ensures
        b == starts_with(s@, p@),
{
    let n = p.unicode_len();
    if n > s.unicode_len() {
        return false;
    }
    let mut i: usize = 0;
    while i < n
        invariant
            i <= n,
            n == p@.len(),
            n <= s@.len(),
            forall|j: int| 0 <= j < i ==> s@[j] == p@[j],
        decreases n - i,
    {
        if s.get_char(i) != p.get_char(i) {
            proof {
                assert(s@.take(n as int)[i as int] == s@[i as int]);
            }
            return false;
        }
        i += 1;
    }
    proof {
        assert(s@.take(n as int) =~= p@);
    }
    true
}

/// Character-for-character equality of string slices.
pub fn str_eq(a: &str, b: &str) -> (r: bool)
    ensures
        r == (a@ == b@),
{
    let n = a.unicode_len();
    if n != b.unicode_len() {
        return false;
    }
    let mut i: usize = 0;
    while i < n
        invariant
            i <= n,
            n == a@.len(),
            n == b@.len(),
            forall|j: int| 0 <= j < i ==> a@[j] == b@[j],
        decreases n - i,
    {
        if a.get_char(i) != b.get_char(i) {
            return false;
        }
        i += 1;
    }
    proof {
        assert(a@ =~= b@);
    }
    true
}

/// Lexicographic order on character sequences, by code point. For the ASCII
/// payloads these identifiers carry this is exactly byte order; for general
/// text it is still byte order, because UTF-8 preserves code-point order.
pub open spec fn lex_cmp(a: Seq<char>, b: Seq<char>) -> Ordering
    decreases a.len(),
{
    if a.len() == 0 && b.len() == 0 {
        Ordering::Equal
    } else if a.len() == 0 {
        Ordering::Less
    } else if b.len() == 0 {
        Ordering::Greater
    } else if (a[0] as u32) < (b[0] as u32) {
        Ordering::Less
    } else if (a[0] as u32) > (b[0] as u32) {
        Ordering::Greater
    } else {
        lex_cmp(a.drop_first(), b.drop_first())
    }
}

/// Law: the lexicographic comparison agrees with equality — it answers
/// `Equal` exactly when the two sequences are the same. Together with the
/// ordering contracts this pins down that two ids compare equal if and only
/// if their payloads are equal.
pub proof fn lemma_lex_cmp_equal(a: Seq<char>, b: Seq<char>)
    ensures
        lex_cmp(a, b) == Ordering::Equal <==> a == b,
    decreases a.len(),
{
    if a.len() == 0 && b.len() == 0 {
        assert(a =~= b);
    } else if a.len() == 0 || b.len() == 0 {
    } else if (a[0] as u32) != (b[0] as u32) {
    } else {
        lemma_lex_cmp_equal(a.drop_first(), b.drop_first());
        vstd::utf8::char_u32_cast(a[0], a[0] as u32);
        vstd::utf8::char_u32_cast(b[0], b[0] as u32);
        assert(a[0] == b[0]);
        if a.drop_first() == b.drop_first() {
            assert forall|i: int| 0 <= i < a.len() implies a[i] == b[i] by {
                if i > 0 {
                    assert(a.drop_first()[i - 1] == b.drop_first()[i - 1]);
                }
            }
            assert(a =~= b);
        }
    }
}

/// Lexicographic comparison of string slices.
pub fn str_lex_cmp(a: &str, b: &str) -> (o: Ordering)
    ensures
        o == lex_cmp(a@, b@),
{
    let alen = a.unicode_len();
    let blen = b.unicode_len();
    let mut i: usize = 0;
    proof {
        assert(a@.skip(0) =~= a@);
        assert(b@.skip(0) =~= b@);
    }
    loop
        invariant
            i <= alen,
            i <= blen,
            alen == a@.len(),
            blen == b@.len(),
            lex_cmp(a@, b@) == lex_cmp(a@.skip(i as int), b@.skip(i as int)),
        decreases alen - i,
    {
        if i == alen && i == blen {
            return Ordering::Equal;
        }
        if i == alen {
            return Ordering::Less;
        }
        if i == blen {
            return Ordering::Greater;
        }
        let x = a.get_char(i) as u32;
        let y = b.get_char(i) as u32;
        if x < y {
            return Ordering::Less;
        }
        if x > y {
            return Ordering::Greater;
        }
        proof {
            assert(a@.skip(i as int)[0] == a@[i as int]);
            assert(b@.skip(i as int)[0] == b@[i as int]);
            assert(a@.skip(i as int).drop_first() =~= a@.skip(i as int + 1));
            assert(b@.skip(i as int).drop_first() =~= b@.skip(i as int + 1));
        }
        i += 1;
    }
}

/// There is a separator character somewhere in `s`.
pub open spec fn has_sep(s: Seq<char>) -> bool {
    exists|i: int| 0 <= i < s.len() && s[i] == '_'
}

/// The position of the first separator character in `s` (meaningful only
/// when `has_sep(s)` holds).
pub open spec fn first_sep(s: Seq<char>) -> int
    decreases s.len(),
{
    if s.len() == 0 {
        0
    } else if s[0] == '_' {
        0
    } else {
        1 + first_sep(s.drop_first())
    }
}

/// The candidate prefix of `s`: everything through and including the first
/// separator.
pub open spec fn sep_prefix(s: Seq<char>) -> Seq<char> {
    s.take(first_sep(s) + 1)
}

proof fn lemma_first_sep_at(s: Seq<char>, i: int)
    requires
        0 <= i < s.len(),
        s[i] == '_',
        forall|j: int| 0 <= j < i ==> s[j] != '_',
    ensures
        has_sep(s),
        first_sep(s) == i,
    decreases i,
{
    if i > 0 {
        let t = s.drop_first();
        assert(forall|j: int| 0 <= j < i - 1 ==> t[j] == s[j + 1] && t[j] != '_');
        assert(t[i - 1] == s[i]);
        lemma_first_sep_at(t, i - 1);
    }
}

/// The position of the first `_` in `s`, if any.
pub fn find_sep(s: &str) -> (r: Option<usize>)
    ensures
        s@.len() <= usize::MAX,
        match r {
            Some(i) => has_sep(s@) && i == first_sep(s@) && i < s@.len() && s@[i as int] == '_',
            None => !has_sep(s@),
        },
{
    let n = s.unicode_len();
    let mut i: usize = 0;
    while i < n
        invariant
            i <= n,
            n == s@.len(),
            forall|j: int| 0 <= j < i ==> s@[j] != '_',
        decreases n - i,
    {
        if s.get_char(i) == '_' {
            proof {
                lemma_first_sep_at(s@, i as int);
            }
            return Some(i);
        }
        i += 1;
    }
    None
}

} // verus!
