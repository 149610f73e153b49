//! Single-kind identifiers.
//!
//! An identifier kind fixes, at compile time, a name, a set of accepted
//! string prefixes and two capabilities: freeform (no prefix discipline at
//! all) and nullable (the empty string is the kind's canonical absent
//! value). `Id<K>` is the identifier itself: an immutable string payload
//! that the kind accepts. Parsing is the only validated way in; equality and
//! ordering are defined purely on the payload text.

use vstd::prelude::*;

verus! {

use core::cmp::Ordering;
use core::marker::PhantomData;
use smol_str::SmolStr;
use vstd::std_specs::cmp::PartialEqSpec;
use crate::error::{ParseIdError, prefix_expectation, prefix_expectation_text, views_of};
use crate::text::{chars_of, lex_cmp, smol_as_str, smol_clone, smol_new, starts_with, str_eq,
    str_lex_cmp, str_starts_with};

/// Compile-time description of one identifier kind.
pub trait IdKind: Sized {
    /// The kind's type name, as it appears in failure messages.
    spec fn spec_name() -> Seq<char>;

    /// The accepted prefixes, in their declared order.
    spec fn spec_prefixes() -> Seq<Seq<char>>;

    /// A freeform kind accepts every string verbatim.
    spec fn spec_freeform() -> bool;

    /// A nullable kind accepts the empty string as its absent value.
    spec fn spec_nullable() -> bool;

    fn name() -> (r: &'static str)
        ensures
            r@ == Self::spec_name(),
    ;

    fn prefixes() -> (r: Vec<&'static str>)
        ensures
            r@.len() == Self::spec_prefixes().len(),
            forall|i: int| 0 <= i < r@.len() ==> (#[trigger] r@[i])@ == Self::spec_prefixes()[i],
    ;

    fn freeform() -> (b: bool)
        ensures
            b == Self::spec_freeform(),
    ;

    fn nullable() -> (b: bool)
        ensures
            b == Self::spec_nullable(),
    ;

    /// Every kind that validates by prefix declares at least one prefix.
    proof fn kind_wf()
        ensures
            !Self::spec_freeform() ==> Self::spec_prefixes().len() > 0,
    ;
}

/// Which raw strings the kind `K` accepts: every string for a freeform kind,
/// the empty string for a nullable kind, and otherwise exactly the strings
/// starting with one of the accepted prefixes.
pub open spec fn accepts<K: IdKind>(raw: Seq<char>) -> bool {
    ||| K::spec_freeform()
    ||| K::spec_nullable() && raw.len() == 0
    ||| exists|i: int|
        0 <= i < K::spec_prefixes().len() && starts_with(raw, #[trigger] K::spec_prefixes()[i])
}

/// A single-kind identifier: an immutable string payload accepted by `K`.
///
/// The payload typically avoids allocation, so values are cheap to clone.
#[derive(Debug, Hash)]
pub struct Id<K: IdKind> {
    payload: SmolStr,
    kind: PhantomData<K>,
}

impl<K: IdKind> View for Id<K> {
    type V = Seq<char>;

    closed spec fn view(&self) -> Seq<char> {
        chars_of(self.payload)
    }
}

impl<K: IdKind> Id<K> {
    /// The payload is a string the kind accepts. Parsing establishes this
    /// and every operation preserves it.
    pub open spec fn wf(&self) -> bool {
        accepts::<K>(self@)
    }

    pub(crate) fn make(raw: &str) -> (r: Self)
        ensures
            r@ == raw@,
    {
        Id { payload: smol_new(raw), kind: PhantomData }
    }

    /// Parse a raw string as an id of kind `K`.
    ///
    /// Succeeds exactly on the strings the kind accepts, returning the id
    /// holding that string unchanged. Fails otherwise, naming the kind and
    /// listing every accepted prefix.
    pub fn parse(raw: &str) -> (r: Result<Self, ParseIdError>)
        ensures
            r is Ok <==> accepts::<K>(raw@),
            r matches Ok(id) ==> id@ == raw@ && id.wf(),
            r matches Err(e) ==> e.typename_spec() == K::spec_name() && e.expected_spec()
                == prefix_expectation(K::spec_prefixes()),
    {
        if K::freeform() {
            return Ok(Self::make(raw));
        }
        if K::nullable() && raw.is_empty() {
            return Ok(Self::make(raw));
        }
        let ps = K::prefixes();
        let n = ps.len();
        let mut i: usize = 0;
        while i < n
            invariant
                i <= n,
                n == ps@.len(),
                n == K::spec_prefixes().len(),
                forall|j: int| 0 <= j < n ==> (#[trigger] ps@[j])@ == K::spec_prefixes()[j],
                forall|j: int| 0 <= j < i ==> !starts_with(raw@, #[trigger] K::spec_prefixes()[j]),
            decreases n - i,
        {
            if str_starts_with(raw, ps[i]) {
                return Ok(Self::make(raw));
            }
            i += 1;
        }
        proof {
            K::kind_wf();
            assert(views_of(ps@) =~= K::spec_prefixes());
        }
        Err(ParseIdError::new(K::name(), prefix_expectation_text(&ps)))
    }

    /// The entire id as a string slice; zero-copy.
    pub fn as_str(&self) -> (r: &str)
        ensures
            r@ == self@,
    {
        smol_as_str(&self.payload)
    }

    /// The accepted prefixes of this id kind, in their declared order.
    pub fn prefixes() -> (r: Vec<&'static str>)
        ensures
            r@.len() == K::spec_prefixes().len(),
            forall|i: int| 0 <= i < r@.len() ==> (#[trigger] r@[i])@ == K::spec_prefixes()[i],
    {
        K::prefixes()
    }

    /// Whether `prefix` is one of the accepted prefixes of this id kind.
    pub fn is_valid_prefix(prefix: &str) -> (b: bool)
        ensures
            b == K::spec_prefixes().contains(prefix@),
    {
        let ps = K::prefixes();
        let n = ps.len();
        let mut i: usize = 0;
        while i < n
            invariant
                i <= n,
                n == ps@.len(),
                n == K::spec_prefixes().len(),
                forall|j: int| 0 <= j < n ==> (#[trigger] ps@[j])@ == K::spec_prefixes()[j],
                forall|j: int| 0 <= j < i ==> K::spec_prefixes()[j] != prefix@,
            decreases n - i,
        {
            if str_eq(prefix, ps[i]) {
                assert(K::spec_prefixes()[i as int] == prefix@);
                return true;
            }
            i += 1;
        }
        assert(forall|j: int|
            0 <= j < K::spec_prefixes().len() ==> #[trigger] K::spec_prefixes()[j] != prefix@);
        false
    }

    /// The wire form of this id: absent (serialize as null) when a nullable
    /// kind holds its empty payload, otherwise the payload itself.
    pub fn wire_text(&self) -> (r: Option<&str>)
        ensures
            match r {
                Option::None => K::spec_nullable() && self@.len() == 0,
                Option::Some(s) => s@ == self@ && !(K::spec_nullable() && self@.len() == 0),
            },
    {
        if K::nullable() && self.as_str().is_empty() {
            Option::None
        } else {
            Option::Some(self.as_str())
        }
    }
}

impl<K: IdKind> Clone for Id<K> {
    /// The clone holds the same payload.
    fn clone(&self) -> (r: Self)
        ensures
            r@ == self@,
    {
        Id { payload: smol_clone(&self.payload), kind: PhantomData }
    }
}

impl<K: IdKind> PartialEq for Id<K> {
    fn eq(&self, other: &Self) -> (r: bool) {
        str_eq(self.as_str(), other.as_str())
    }
}

impl<K: IdKind> vstd::std_specs::cmp::PartialEqSpecImpl for Id<K> {
    open spec fn obeys_eq_spec() -> bool {
        true
    }

    /// Two ids of one kind are equal exactly when their payloads are.
    open spec fn eq_spec(&self, other: &Self) -> bool {
        self@ == other@
    }
}

impl<K: IdKind> Eq for Id<K> {

}

impl<K: IdKind> PartialEq<&str> for Id<K> {
    fn eq(&self, other: &&str) -> (r: bool) {
        str_eq(self.as_str(), other)
    }
}

impl<K: IdKind> vstd::std_specs::cmp::PartialEqSpecImpl<&str> for Id<K> {
    open spec fn obeys_eq_spec() -> bool {
        true
    }

    /// An id equals a raw string exactly when its payload does.
    open spec fn eq_spec(&self, other: &&str) -> bool {
        self@ == other@
    }
}

impl<K: IdKind> PartialOrd for Id<K> {
    fn partial_cmp(&self, other: &Self) -> (r: Option<Ordering>) {
        Some(str_lex_cmp(self.as_str(), other.as_str()))
    }
}

impl<K: IdKind> vstd::std_specs::cmp::PartialOrdSpecImpl for Id<K> {
    open spec fn obeys_partial_cmp_spec() -> bool {
        true
    }

    /// Ids of one kind order lexicographically on their payloads.
    open spec fn partial_cmp_spec(&self, other: &Self) -> Option<Ordering> {
        Some(lex_cmp(self@, other@))
    }
}

/// Law: for every accepted prefix `p` of the kind and every suffix `s`, the
/// string `p + s` is accepted — so `parse` succeeds on it and returns an id
/// whose text is exactly `p + s`.
pub proof fn lemma_prefixed_accepted<K: IdKind>(p: Seq<char>, s: Seq<char>)
    requires
        K::spec_prefixes().contains(p),
    ensures
        accepts::<K>(p + s),
{
    assert((p + s).take(p.len() as int) =~= p);
    let i = choose|i: int| 0 <= i < K::spec_prefixes().len() && K::spec_prefixes()[i] == p;
    assert(starts_with(p + s, K::spec_prefixes()[i]));
}

/// Law: a string starting with an accepted prefix of the kind is accepted.
/// This is what lets union dispatch hand a matched string to the variant's
/// own parse and rely on it succeeding.
pub proof fn lemma_prefix_match_accepted<K: IdKind>(raw: Seq<char>, p: Seq<char>)
    requires
        K::spec_prefixes().contains(p),
        starts_with(raw, p),
    ensures
        accepts::<K>(raw),
{
    let j = choose|j: int| 0 <= j < K::spec_prefixes().len() && K::spec_prefixes()[j] == p;
    assert(starts_with(raw, K::spec_prefixes()[j]));
}

/// Law: a non-freeform kind rejects every string that starts with none of
/// its accepted prefixes — except the empty string of a nullable kind, which
/// is its absent value.
pub proof fn lemma_unprefixed_rejected<K: IdKind>(raw: Seq<char>)
    requires
        !K::spec_freeform(),
        !(K::spec_nullable() && raw.len() == 0),
        forall|i: int|
            0 <= i < K::spec_prefixes().len() ==> !starts_with(
                raw,
                #[trigger] K::spec_prefixes()[i],
            ),
    ensures
        !accepts::<K>(raw),
{
}

/// Law: a freeform kind accepts every string, empty or with any prefix.
pub proof fn lemma_freeform_accepts<K: IdKind>(raw: Seq<char>)
    requires
        K::spec_freeform(),
    ensures
        accepts::<K>(raw),
{
}

/// Law: a nullable kind accepts the empty string.
pub proof fn lemma_nullable_empty_accepted<K: IdKind>(raw: Seq<char>)
    requires
        K::spec_nullable(),
        raw.len() == 0,
    ensures
        accepts::<K>(raw),
{
}

/// Law (round trip): the text of a well-formed id is accepted by its own
/// kind, so re-parsing it succeeds; and any id of the kind holding that text
/// is equal to it.
pub proof fn lemma_round_trip<K: IdKind>(x: Id<K>, y: Id<K>)
    requires
        x.wf(),
        y@ == x@,
    ensures
        accepts::<K>(x@),
        x.eq_spec(&y),
{
}

} // verus!
