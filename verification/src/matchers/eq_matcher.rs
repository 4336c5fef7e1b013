//! The matcher for equality with an expected value.
use crate::matcher::{explain_with, result_of, which, Matcher, MatcherResult};
use crate::text::{join2, Render};
use vstd::prelude::*;
use vstd::std_specs::cmp::PartialEqSpec;
use vstd::string::*;

verus! {

/// The description of equality with a value whose text is `expected`.
pub open spec fn eq_description(expected: Seq<char>, matcher_result: MatcherResult) -> Seq<char> {
    match matcher_result {
        MatcherResult::Match => "is equal to "@ + expected,
        MatcherResult::NoMatch => "isn't equal to "@ + expected,
    }
}

/// A matcher which matches a value equal to `expected`.
pub struct EqMatcher<E> {
    expected: E,
}

impl<E> EqMatcher<E> {
    /// The value that actual values are compared with.
    pub closed spec fn expected(&self) -> E {
        self.expected
    }
}

/// Matches a value equal, under `==`, to `expected`.
pub fn eq<E>(expected: E) -> (m: EqMatcher<E>)
    ensures
        m.expected() == expected,
{
    EqMatcher { expected }
}

impl<A: PartialEq<E> + ?Sized, E: Render> Matcher<A> for EqMatcher<E> {
    /// The comparison of the actual type with the expected type computes what
    /// its specification says.
    open spec fn obeys_spec(&self) -> bool {
        A::obeys_eq_spec()
    }

    open spec fn spec_matches(&self, actual: &A) -> bool {
        actual.eq_spec(&self.expected())
    }

    open spec fn spec_describe(&self, matcher_result: MatcherResult) -> Seq<char> {
        eq_description(self.expected().rendered(), matcher_result)
    }

    open spec fn spec_explain_match(&self, actual: &A) -> Seq<char> {
        which(eq_description(self.expected().rendered(), result_of(self.spec_matches(actual))))
    }

    fn matches(&self, actual: &A) -> (r: MatcherResult) {
        if *actual == self.expected {
            MatcherResult::Match
        } else {
            MatcherResult::NoMatch
        }
    }

    fn describe(&self, matcher_result: MatcherResult) -> (s: String) {
        let expected = self.expected.render();
        match matcher_result {
            MatcherResult::Match => join2("is equal to ", expected.as_str()),
            MatcherResult::NoMatch => join2("isn't equal to ", expected.as_str()),
        }
    }

    fn explain_match(&self, actual: &A) -> (s: String) {
        let expected = self.expected.render();
        let description = if *actual == self.expected {
            join2("is equal to ", expected.as_str())
        } else {
            join2("isn't equal to ", expected.as_str())
        };
        explain_with(description.as_str())
    }
}

} // verus!
