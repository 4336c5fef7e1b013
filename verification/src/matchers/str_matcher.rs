//! Matchers for the beginning and the end of a text.
use crate::matcher::{explain_with, result_of, which, Matcher, MatcherResult};
use crate::text::{has_prefix, has_suffix, join2, quote, quoted, Text};
use vstd::prelude::*;
use vstd::string::*;

verus! {

/// The part of a text that a `StrMatcher` looks at.
#[derive(Clone, Copy, Debug, PartialEq, Eq, Structural)]
pub enum MatchMode {
    /// The text begins with the expected text.
    StartsWith,
    /// The text ends with the expected text.
    EndsWith,
}

/// Whether `actual` has `expected` at the place that `mode` names.
pub open spec fn str_matches(mode: MatchMode, expected: Seq<char>, actual: Seq<char>) -> bool {
    match mode {
        MatchMode::StartsWith => expected.is_prefix_of(actual),
        MatchMode::EndsWith => expected.is_suffix_of(actual),
    }
}

/// The words that introduce the expected text in a description.
pub open spec fn mode_description(mode: MatchMode, matcher_result: MatcherResult) -> Seq<char> {
    match (mode, matcher_result) {
        (MatchMode::StartsWith, MatcherResult::Match) => "starts with prefix "@,
        (MatchMode::StartsWith, MatcherResult::NoMatch) => "does not start with "@,
        (MatchMode::EndsWith, MatcherResult::Match) => "ends with suffix "@,
        (MatchMode::EndsWith, MatcherResult::NoMatch) => "does not end with "@,
    }
}

/// The description of a `StrMatcher`: the words for its mode and the outcome,
/// then the expected text in quotes.
pub open spec fn str_description(
    mode: MatchMode,
    expected: Seq<char>,
    matcher_result: MatcherResult,
) -> Seq<char> {
    mode_description(mode, matcher_result) + quoted(expected)
}

/// A matcher which matches a text that begins, or ends, with an expected text.
pub struct StrMatcher {
    expected: String,
    mode: MatchMode,
}

impl StrMatcher {
    /// The text that actual values are compared with.
    pub closed spec fn expected(&self) -> Seq<char> {
        self.expected@
    }

    /// The part of the actual value that is compared.
    pub closed spec fn mode(&self) -> MatchMode {
        self.mode
    }

    fn describe_outcome(&self, matcher_result: MatcherResult) -> (s: String)
        ensures
            s@ == str_description(self.mode(), self.expected(), matcher_result),
    {
        let expected = quote(self.expected.as_str());
        let words = match (self.mode, matcher_result) {
            (MatchMode::StartsWith, MatcherResult::Match) => "starts with prefix ",
            (MatchMode::StartsWith, MatcherResult::NoMatch) => "does not start with ",
            (MatchMode::EndsWith, MatcherResult::Match) => "ends with suffix ",
            (MatchMode::EndsWith, MatcherResult::NoMatch) => "does not end with ",
        };
        join2(words, expected.as_str())
    }

    fn matches_text(&self, actual: &str) -> (b: bool)
        ensures
            b == str_matches(self.mode(), self.expected(), actual@),
    {
        match self.mode {
            MatchMode::StartsWith => has_prefix(actual, self.expected.as_str()),
            MatchMode::EndsWith => has_suffix(actual, self.expected.as_str()),
        }
    }
}

/// Matches a text which begins with `prefix`.
pub fn starts_with(prefix: &str) -> (m: StrMatcher)
    ensures
        m.expected() == prefix@,
        m.mode() == MatchMode::StartsWith,
{
    StrMatcher { expected: String::from_str(prefix), mode: MatchMode::StartsWith }
}

/// Matches a text which ends with `suffix`.
pub fn ends_with(suffix: &str) -> (m: StrMatcher)
    ensures
        m.expected() == suffix@,
        m.mode() == MatchMode::EndsWith,
{
    StrMatcher { expected: String::from_str(suffix), mode: MatchMode::EndsWith }
}

impl<A: Text + ?Sized> Matcher<A> for StrMatcher {
    open spec fn obeys_spec(&self) -> bool {
        true
    }

    open spec fn spec_matches(&self, actual: &A) -> bool {
        str_matches(self.mode(), self.expected(), actual.text())
    }

    open spec fn spec_describe(&self, matcher_result: MatcherResult) -> Seq<char> {
        str_description(self.mode(), self.expected(), matcher_result)
    }

    open spec fn spec_explain_match(&self, actual: &A) -> Seq<char> {
        which(
            str_description(
                self.mode(),
                self.expected(),
                result_of(str_matches(self.mode(), self.expected(), actual.text())),
            ),
        )
    }

    fn matches(&self, actual: &A) -> (r: MatcherResult) {
        MatcherResult::from_bool(self.matches_text(actual.as_text()))
    }

    fn describe(&self, matcher_result: MatcherResult) -> (s: String) {
        self.describe_outcome(matcher_result)
    }

    fn explain_match(&self, actual: &A) -> (s: String) {
        let outcome = MatcherResult::from_bool(self.matches_text(actual.as_text()));
        let description = self.describe_outcome(outcome);
        explain_with(description.as_str())
    }
}

} // verus!
