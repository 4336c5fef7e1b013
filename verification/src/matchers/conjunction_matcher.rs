//! The conjunction of two matchers.
use crate::matcher::{Matcher, MatcherResult};
use vstd::prelude::*;
use vstd::string::*;

verus! {

/// The description of a conjunction from the descriptions of its two sides.
pub open spec fn conjunction_description(left: Seq<char>, right: Seq<char>) -> Seq<char> {
    left + ", and "@ + right
}

/// The explanation of a conjunction from the outcomes and the explanations
/// of its two sides: that of the one side that fails where exactly one does,
/// and both, joined, where both or neither do.
pub open spec fn conjunction_explanation(
    left_matches: bool,
    left: Seq<char>,
    right_matches: bool,
    right: Seq<char>,
) -> Seq<char> {
    if !left_matches && right_matches {
        left
    } else if left_matches && !right_matches {
        right
    } else {
        left + " and\n  "@ + right
    }
}

/// A matcher which matches a value that both of its sides match.
pub struct ConjunctionMatcher<M1, M2> {
    m1: M1,
    m2: M2,
}

impl<M1, M2> ConjunctionMatcher<M1, M2> {
    /// The left side.
    pub closed spec fn left(&self) -> M1 {
        self.m1
    }

    /// The right side.
    pub closed spec fn right(&self) -> M2 {
        self.m2
    }

    /// Constructs the conjunction of `m1` and `m2`.
    pub fn new(m1: M1, m2: M2) -> (m: Self)
        ensures
            m.left() == m1,
            m.right() == m2,
    {
        Self { m1, m2 }
    }
}

impl<T: ?Sized, M1: Matcher<T>, M2: Matcher<T>> Matcher<T> for ConjunctionMatcher<M1, M2> {
    open spec fn obeys_spec(&self) -> bool {
        self.left().obeys_spec() && self.right().obeys_spec()
    }

    open spec fn spec_matches(&self, actual: &T) -> bool {
        self.left().spec_matches(actual) && self.right().spec_matches(actual)
    }

    open spec fn spec_describe(&self, matcher_result: MatcherResult) -> Seq<char> {
        conjunction_description(
            self.left().spec_describe(matcher_result),
            self.right().spec_describe(matcher_result),
        )
    }

    open spec fn spec_explain_match(&self, actual: &T) -> Seq<char> {
        conjunction_explanation(
            self.left().spec_matches(actual),
            self.left().spec_explain_match(actual),
            self.right().spec_matches(actual),
            self.right().spec_explain_match(actual),
        )
    }

    fn matches(&self, actual: &T) -> (r: MatcherResult) {
        match (self.m1.matches(actual), self.m2.matches(actual)) {
            (MatcherResult::Match, MatcherResult::Match) => MatcherResult::Match,
            _ => MatcherResult::NoMatch,
        }
    }

    fn explain_match(&self, actual: &T) -> (s: String) {
        match (self.m1.matches(actual), self.m2.matches(actual)) {
            (MatcherResult::NoMatch, MatcherResult::Match) => self.m1.explain_match(actual),
            (MatcherResult::Match, MatcherResult::NoMatch) => self.m2.explain_match(actual),
            _ => {
                let mut s = self.m1.explain_match(actual);
                s.append(" and\n  ");
                s.append(self.m2.explain_match(actual).as_str());
                s
            },
        }
    }

    fn describe(&self, matcher_result: MatcherResult) -> (s: String) {
        let mut s = self.m1.describe(matcher_result);
        s.append(", and ");
        s.append(self.m2.describe(matcher_result).as_str());
        s
    }
}

} // verus!
