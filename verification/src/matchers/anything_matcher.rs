//! The matcher that every value satisfies.
use crate::matcher::{explain_with, which, Matcher, MatcherResult};
use vstd::prelude::*;
use vstd::string::*;

verus! {

/// The description of the matcher that every value satisfies.
pub open spec fn anything_description(matcher_result: MatcherResult) -> Seq<char> {
    match matcher_result {
        MatcherResult::Match => "is anything"@,
        MatcherResult::NoMatch => "never matches"@,
    }
}

/// A matcher that every value satisfies.
pub struct Anything;

/// Matches every value.
pub fn anything() -> Anything {
    Anything
}

impl<T: ?Sized> Matcher<T> for Anything {
    open spec fn obeys_spec(&self) -> bool {
        true
    }

    open spec fn spec_matches(&self, actual: &T) -> bool {
        true
    }

    open spec fn spec_describe(&self, matcher_result: MatcherResult) -> Seq<char> {
        anything_description(matcher_result)
    }

    open spec fn spec_explain_match(&self, actual: &T) -> Seq<char> {
        which(anything_description(MatcherResult::Match))
    }

    fn matches(&self, actual: &T) -> (r: MatcherResult) {
        MatcherResult::Match
    }

    fn describe(&self, matcher_result: MatcherResult) -> (s: String) {
        match matcher_result {
            MatcherResult::Match => String::from_str("is anything"),
            MatcherResult::NoMatch => String::from_str("never matches"),
        }
    }

    fn explain_match(&self, actual: &T) -> (s: String) {
        explain_with("is anything")
    }
}

} // verus!
