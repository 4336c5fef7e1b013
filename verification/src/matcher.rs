//! The matcher contract: a predicate on a value together with its description.
use vstd::prelude::*;
use vstd::string::*;

verus! {

/// The outcome of applying a matcher to a value.
#[derive(Clone, Copy, Debug, PartialEq, Eq, Structural)]
pub enum MatcherResult {
    /// The value satisfies the matcher.
    Match,
    /// The value does not satisfy the matcher.
    NoMatch,
}

impl MatcherResult {
    /// The outcome as a truth value: `true` exactly for `Match`.
    pub open spec fn as_bool(self) -> bool {
        self is Match
    }

    /// Builds the outcome that stands for `b`.
    pub fn from_bool(b: bool) -> (r: MatcherResult)
        ensures
            r.as_bool() == b,
    {
        if b {
            MatcherResult::Match
        } else {
            MatcherResult::NoMatch
        }
    }

    /// Returns `true` exactly for `Match`.
    pub fn into_bool(self) -> (b: bool)
        ensures
            b == self.as_bool(),
    {
        match self {
            MatcherResult::Match => true,
            MatcherResult::NoMatch => false,
        }
    }
}

impl From<bool> for MatcherResult {
    fn from(b: bool) -> (r: MatcherResult) {
        MatcherResult::from_bool(b)
    }
}

impl vstd::std_specs::convert::FromSpecImpl<bool> for MatcherResult {
    open spec fn obeys_from_spec() -> bool {
        true
    }

    open spec fn from_spec(b: bool) -> MatcherResult {
        result_of(b)
    }
}

impl From<MatcherResult> for bool {
    fn from(matcher_result: MatcherResult) -> (b: bool) {
        matcher_result.into_bool()
    }
}

impl vstd::std_specs::convert::FromSpecImpl<MatcherResult> for bool {
    open spec fn obeys_from_spec() -> bool {
        true
    }

    open spec fn from_spec(matcher_result: MatcherResult) -> bool {
        matcher_result.as_bool()
    }
}

/// A predicate on values of type `T` that can describe itself.
///
/// The four specification functions say what an implementation computes, and
/// the contracts of the three methods hold a well-formed matcher to them. An
/// implementation that states nothing keeps the defaults, under which it is
/// not known to be well-formed and nothing is known of what it returns.
pub trait Matcher<T: ?Sized> {
    /// Whether the methods of this matcher compute what its specification
    /// functions say.
    open spec fn obeys_spec(&self) -> bool {
        false
    }

    /// The predicate this matcher decides.
    open spec fn spec_matches(&self, actual: &T) -> bool {
        false
    }

    /// The description of this matcher for the given outcome.
    open spec fn spec_describe(&self, matcher_result: MatcherResult) -> Seq<char> {
        Seq::empty()
    }

    /// The explanation of the outcome on `actual`.
    open spec fn spec_explain_match(&self, actual: &T) -> Seq<char> {
        Seq::empty()
    }

    /// Returns whether the condition of the matcher holds of `actual`.
    fn matches(&self, actual: &T) -> (r: MatcherResult)
        ensures
            self.obeys_spec() ==> r.as_bool() == self.spec_matches(actual),
    ;

    /// Returns a description of this matcher: of the values that it matches
    /// for `Match`, of those that it does not match for `NoMatch`.
    fn describe(&self, matcher_result: MatcherResult) -> (s: String)
        ensures
            self.obeys_spec() ==> s@ == self.spec_describe(matcher_result),
    ;

    /// Returns an explanation, to follow the actual value in a message, of
    /// why the matcher did or did not match `actual`.
    fn explain_match(&self, actual: &T) -> (s: String)
        ensures
            self.obeys_spec() ==> s@ == self.spec_explain_match(actual),
    ;
}

/// A borrowed matcher is the matcher it borrows.
impl<'a, T: ?Sized, M: Matcher<T> + ?Sized> Matcher<T> for &'a M {
    open spec fn obeys_spec(&self) -> bool {
        (**self).obeys_spec()
    }

    open spec fn spec_matches(&self, actual: &T) -> bool {
        (**self).spec_matches(actual)
    }

    open spec fn spec_describe(&self, matcher_result: MatcherResult) -> Seq<char> {
        (**self).spec_describe(matcher_result)
    }

    open spec fn spec_explain_match(&self, actual: &T) -> Seq<char> {
        (**self).spec_explain_match(actual)
    }

    fn matches(&self, actual: &T) -> (r: MatcherResult) {
        (**self).matches(actual)
    }

    fn describe(&self, matcher_result: MatcherResult) -> (s: String) {
        (**self).describe(matcher_result)
    }

    fn explain_match(&self, actual: &T) -> (s: String) {
        (**self).explain_match(actual)
    }
}

/// The outcome that stands for a truth value.
pub open spec fn result_of(b: bool) -> MatcherResult {
    if b {
        MatcherResult::Match
    } else {
        MatcherResult::NoMatch
    }
}

/// The explanation of a matcher that has nothing more to say than its
/// description: the word "which" in front of the description that belongs to
/// the outcome.
pub open spec fn which(description: Seq<char>) -> Seq<char> {
    "which "@ + description
}

/// Turns the description that belongs to an outcome into its explanation.
pub fn explain_with(description: &str) -> (s: String)
    ensures
        s@ == which(description@),
{
    let mut s = String::from_str("which ");
    s.append(description);
    s
}

} // verus!
