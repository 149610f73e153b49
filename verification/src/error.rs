//! The parse failure value and its human-readable messages.
//!
//! A failed parse carries the name of the id type it aimed at and a
//! description of what was expected. The description for a scalar type lists
//! every accepted prefix, quoted and joined by "or"; unions use two fixed
//! descriptions of their own. The full message rendered for callers is
//! ``invalid `TypeName`, expected <description>``.

use vstd::prelude::*;

verus! {

use vstd::string::StringExecFns;

/// `p` wrapped in double quotes.
pub open spec fn quoted(p: Seq<char>) -> Seq<char> {
    "\""@ + p + "\""@
}

/// The quoted prefixes joined by " or ".
pub open spec fn or_joined(ps: Seq<Seq<char>>) -> Seq<char>
    decreases ps.len(),
{
    if ps.len() == 0 {
        Seq::empty()
    } else if ps.len() == 1 {
        quoted(ps[0])
    } else {
        quoted(ps[0]) + " or "@ + or_joined(ps.drop_first())
    }
}

/// The expected-format description for a scalar type whose accepted prefixes
/// are `ps`.
pub open spec fn prefix_expectation(ps: Seq<Seq<char>>) -> Seq<char> {
    "id to start with "@ + or_joined(ps)
}

/// The full failure message for type `typename` with description `expected`.
pub open spec fn message_text(typename: Seq<char>, expected: Seq<char>) -> Seq<char> {
    "invalid `"@ + typename + "`, expected "@ + expected
}

/// The views of a list of string slices.
pub open spec fn views_of(ps: Seq<&'static str>) -> Seq<Seq<char>> {
    ps.map_values(|p: &'static str| p@)
}

proof fn lemma_or_joined_push(ps: Seq<Seq<char>>, p: Seq<char>)
    requires
        ps.len() >= 1,
    ensures
        or_joined(ps.push(p)) == or_joined(ps) + " or "@ + quoted(p),
    decreases ps.len(),
{
    let grown = ps.push(p);
    assert(grown.len() == ps.len() + 1);
    assert(grown[0] == ps[0]);
    if ps.len() == 1 {
        assert(grown.drop_first() =~= seq![p]);
        assert(or_joined(seq![p]) == quoted(p));
    } else {
        lemma_or_joined_push(ps.drop_first(), p);
        assert(grown.drop_first() =~= ps.drop_first().push(p));
        assert(quoted(ps[0]) + " or "@ + (or_joined(ps.drop_first()) + " or "@ + quoted(p)) =~= (
        quoted(ps[0]) + " or "@ + or_joined(ps.drop_first())) + " or "@ + quoted(p));
    }
}

/// Build the expected-format description "id to start with \"p\" or ..."
/// from a non-empty prefix list.
pub fn prefix_expectation_text(ps: &Vec<&'static str>) -> (r: String)
    requires
        ps@.len() > 0,
    ensures
        r@ == prefix_expectation(views_of(ps@)),
{
    let ghost views = views_of(ps@);
    let mut s = String::from_str("id to start with ");
    s.append("\"");
    s.append(ps[0]);
    s.append("\"");
    proof {
        assert(views.take(1) =~= seq![views[0]]);
        assert(or_joined(views.take(1)) == quoted(views[0]));
        assert(s@ =~= "id to start with "@ + quoted(views[0]));
    }
    let mut i: usize = 1;
    while i < ps.len()
        invariant
            1 <= i <= ps@.len(),
            views == views_of(ps@),
            views.len() == ps@.len(),
            s@ == "id to start with "@ + or_joined(views.take(i as int)),
        decreases ps@.len() - i,
    {
        let ghost before = s@;
        s.append(" or ");
        s.append("\"");
        s.append(ps[i]);
        s.append("\"");
        proof {
            lemma_or_joined_push(views.take(i as int), views[i as int]);
            assert(views.take(i as int).push(views[i as int]) =~= views.take(i as int + 1));
            assert(s@ =~= before + " or "@ + quoted(views[i as int]));
            assert(s@ =~= "id to start with "@ + or_joined(views.take(i as int + 1)));
        }
        i += 1;
    }
    proof {
        assert(views.take(views.len() as int) =~= views);
    }
    s
}

/// A terminal parse failure: the raw string did not fit the id type named
/// here, in the way `expected` describes. Never retried; always returned to
/// the caller.
#[derive(Clone, Debug)]
pub struct ParseIdError {
    typename: &'static str,
    expected: String,
}

impl ParseIdError {
    /// The name of the id type that was being parsed.
    pub closed spec fn typename_spec(&self) -> Seq<char> {
        self.typename@
    }

    /// The expected-format description.
    pub closed spec fn expected_spec(&self) -> Seq<char> {
        self.expected@
    }

    pub(crate) fn new(typename: &'static str, expected: String) -> (e: Self)
        ensures
            e.typename_spec() == typename@,
            e.expected_spec() == expected@,
    {
        ParseIdError { typename, expected }
    }

    /// The name of the id type that was being parsed.
    pub fn typename(&self) -> (r: &str)
        ensures
            r@ == self.typename_spec(),
    {
        self.typename
    }

    /// The expected-format description.
    pub fn expected(&self) -> (r: &str)
        ensures
            r@ == self.expected_spec(),
    {
        self.expected.as_str()
    }

    /// The full, human-readable failure message.
    pub fn message(&self) -> (r: String)
        ensures
            r@ == message_text(self.typename_spec(), self.expected_spec()),
    {
        let mut s = String::from_str("invalid `");
        s.append(self.typename);
        s.append("`, expected ");
        s.append(self.expected.as_str());
        proof {
            assert(s@ =~= message_text(self.typename_spec(), self.expected_spec()));
        }
        s
    }
}

} // verus!
