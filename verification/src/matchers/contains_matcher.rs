//! The matcher for collections that hold matching elements.
use crate::container::Container;
use crate::matcher::{Matcher, MatcherResult};
use crate::matchers::conjunction_matcher::ConjunctionMatcher;
use crate::text::{decimal, join2, usize_to_decimal};
use std::marker::PhantomData;
use vstd::prelude::*;
use vstd::string::*;

verus! {

/// The elements of `items` that `inner` matches, in order.
pub open spec fn matching_items<T, M: Matcher<T>>(inner: &M, items: Seq<T>) -> Seq<T> {
    items.filter(|v: T| inner.spec_matches(&v))
}

/// The number of elements of `items` that `inner` matches.
pub open spec fn matching_count<T, M: Matcher<T>>(inner: &M, items: Seq<T>) -> nat {
    matching_items(inner, items).len()
}

/// Some element of `items` is matched by `inner`.
pub open spec fn has_match<T, M: Matcher<T>>(inner: &M, items: Seq<T>) -> bool {
    exists|i: int| 0 <= i < items.len() && inner.spec_matches(&#[trigger] items[i])
}

/// The description of a matcher for the presence of an element of which
/// `inner` holds; `inner` is the description of the element matcher for a
/// match.
pub open spec fn presence_description(inner: Seq<char>, matcher_result: MatcherResult) -> Seq<
    char,
> {
    match matcher_result {
        MatcherResult::Match => "contains at least one element which "@ + inner,
        MatcherResult::NoMatch => "contains no element which "@ + inner,
    }
}

/// The explanation of a matcher for the presence of an element, on a
/// collection with `count` matching elements.
pub open spec fn presence_explanation(count: nat) -> Seq<char> {
    if count == 0 {
        "which does not contain a matching element"@
    } else {
        "which contains a matching element"@
    }
}

/// The description of a matcher for the number of elements of which `inner`
/// holds; `inner` and `count` are the descriptions, for a match, of the
/// element matcher and of the matcher for the number.
pub open spec fn multiplicity_description(
    inner: Seq<char>,
    count: Seq<char>,
    matcher_result: MatcherResult,
) -> Seq<char> {
    match matcher_result {
        MatcherResult::Match => "contains n elements which "@ + inner + "\n  where n "@ + count,
        MatcherResult::NoMatch => "doesn't contain n elements which "@ + inner + "\n  where n "@
            + count,
    }
}

/// The explanation of a matcher for the number of matching elements, on a
/// collection with `count` of them.
pub open spec fn multiplicity_explanation(count: nat) -> Seq<char> {
    "which contains "@ + decimal(count) + " matching elements"@
}

/// A collection has a matching element exactly when the number of its
/// matching elements is not zero.
pub proof fn lemma_has_match_iff_count_positive<T, M: Matcher<T>>(inner: &M, items: Seq<T>)
    ensures
        has_match(inner, items) <==> matching_count(inner, items) > 0,
    decreases items.len(),
{
    let pred = |v: T| inner.spec_matches(&v);
    reveal(Seq::filter);
    if items.len() > 0 {
        let rest = items.drop_last();
        lemma_has_match_iff_count_positive(inner, rest);
        if has_match(inner, rest) {
            let i = choose|i: int| 0 <= i < rest.len() && inner.spec_matches(&#[trigger] rest[i]);
            assert(inner.spec_matches(&items[i]));
        }
        if inner.spec_matches(&items.last()) {
            assert(inner.spec_matches(&items[items.len() - 1]));
        }
        if has_match(inner, items) {
            let i = choose|i: int| 0 <= i < items.len() && inner.spec_matches(&#[trigger] items[i]);
            if i < rest.len() {
                assert(inner.spec_matches(&rest[i]));
            }
        }
    }
}

/// The number of matching elements is at most the number of elements.
pub proof fn lemma_matching_count_bound<T, M: Matcher<T>>(inner: &M, items: Seq<T>)
    ensures
        matching_count(inner, items) <= items.len(),
{
    items.lemma_filter_len(|v: T| inner.spec_matches(&v));
}

/// Stands for "no constraint on the number of matching elements".
pub struct NoCountMatcher;

/// A matcher which matches a container containing one or more elements a
/// given inner matcher matches, or a number of them that a further matcher
/// matches.
pub struct ContainsMatcher<T: ?Sized, InnerMatcherT, CountMatcher> {
    inner: InnerMatcherT,
    count: CountMatcher,
    phantom: PhantomData<T>,
}

/// Matches a container whose elements contain a value matched by `inner`.
///
/// By default, this matches a container with any number of elements matched
/// by `inner`. Use the method `ContainsMatcher::times` to constrain the
/// matched containers to a specific number of matching elements.
pub fn contains<T: ?Sized, InnerMatcherT>(inner: InnerMatcherT) -> (m: ContainsMatcher<
    T,
    InnerMatcherT,
    NoCountMatcher,
>)
    ensures
        m.inner() == inner,
{
    ContainsMatcher { inner, count: NoCountMatcher, phantom: PhantomData }
}

impl<T: ?Sized, InnerMatcherT> ContainsMatcher<T, InnerMatcherT, NoCountMatcher> {
    /// Configures this instance to match containers which contain a number of
    /// matching items matched by `count`.
    ///
    /// With a matcher for zero as `count`, this tests for the absence of an
    /// item matching the expected value.
    pub fn times<CountMatcher>(self, count: CountMatcher) -> (m: ContainsMatcher<
        T,
        InnerMatcherT,
        CountMatcher,
    >)
        ensures
            m.inner() == self.inner(),
            m.count() == count,
    {
        ContainsMatcher { inner: self.inner, count, phantom: self.phantom }
    }
}

impl<T: ?Sized, InnerMatcherT, CountMatcher> ContainsMatcher<T, InnerMatcherT, CountMatcher> {
    /// The matcher that is applied to the elements.
    pub closed spec fn inner(&self) -> InnerMatcherT {
        self.inner
    }

    /// The matcher that is applied to the number of matching elements.
    pub closed spec fn count(&self) -> CountMatcher {
        self.count
    }

    /// The matcher which matches what both this matcher and `right` match.
    pub fn and<Right>(self, right: Right) -> (m: ConjunctionMatcher<Self, Right>)
        ensures
            m.left() == self,
            m.right() == right,
    {
        ConjunctionMatcher::new(self, right)
    }

    /// Counts the elements of `actual` that the inner matcher matches.
    pub fn count_matches<ContainerT: Container + ?Sized>(&self, actual: &ContainerT) -> (count:
        usize) where InnerMatcherT: Matcher<ContainerT::Item>
        ensures
            self.inner().obeys_spec() ==> count == matching_count(&self.inner(), actual.items()),
            count <= actual.items().len(),
    {
        let n = actual.count();
        let ghost pred = |v: ContainerT::Item| self.inner().spec_matches(&v);
        let mut count: usize = 0;
        let mut i: usize = 0;
        assert(actual.items().subrange(0, 0) =~= Seq::<ContainerT::Item>::empty());
        while i < n
            invariant
                i <= n,
                n == actual.items().len(),
                pred == |v: ContainerT::Item| self.inner().spec_matches(&v),
                self.inner().obeys_spec() ==> count == actual.items().subrange(0, i as int).filter(
                    pred,
                ).len(),
                count <= i,
            decreases n - i,
        {
            let v = actual.item(i);
            proof {
                let before = actual.items().subrange(0, i as int);
                assert(actual.items().subrange(0, i + 1) =~= before.push(*v));
                before.lemma_filter_push(*v, pred);
            }
            if self.inner.matches(v).into_bool() {
                count += 1;
            }
            i = i + 1;
        }
        assert(actual.items().subrange(0, n as int) =~= actual.items());
        count
    }
}

impl<ContainerT: Container + ?Sized, InnerMatcherT: Matcher<ContainerT::Item>> Matcher<
    ContainerT,
> for ContainsMatcher<ContainerT, InnerMatcherT, NoCountMatcher> {
    open spec fn obeys_spec(&self) -> bool {
        self.inner().obeys_spec()
    }

    open spec fn spec_matches(&self, actual: &ContainerT) -> bool {
        has_match(&self.inner(), actual.items())
    }

    open spec fn spec_describe(&self, matcher_result: MatcherResult) -> Seq<char> {
        presence_description(self.inner().spec_describe(MatcherResult::Match), matcher_result)
    }

    open spec fn spec_explain_match(&self, actual: &ContainerT) -> Seq<char> {
        presence_explanation(matching_count(&self.inner(), actual.items()))
    }

    fn matches(&self, actual: &ContainerT) -> (r: MatcherResult) {
        let n = actual.count();
        let mut i: usize = 0;
        while i < n
            invariant
                i <= n,
                n == actual.items().len(),
                self.inner().obeys_spec() ==> forall|j: int|
                    0 <= j < i ==> !self.inner().spec_matches(&#[trigger] actual.items()[j]),
            decreases n - i,
        {
            let v = actual.item(i);
            if self.inner.matches(v).into_bool() {
                return MatcherResult::Match;
            }
            i = i + 1;
        }
        MatcherResult::NoMatch
    }

    fn explain_match(&self, actual: &ContainerT) -> (s: String) {
        let count = self.count_matches(actual);
        if count == 0 {
            String::from_str("which does not contain a matching element")
        } else {
            String::from_str("which contains a matching element")
        }
    }

    fn describe(&self, matcher_result: MatcherResult) -> (s: String) {
        let inner = self.inner.describe(MatcherResult::Match);
        match matcher_result {
            MatcherResult::Match => join2("contains at least one element which ", inner.as_str()),
            MatcherResult::NoMatch => join2("contains no element which ", inner.as_str()),
        }
    }
}

impl<
    ContainerT: Container + ?Sized,
    InnerMatcherT: Matcher<ContainerT::Item>,
    CountMatcher: Matcher<usize>,
> Matcher<ContainerT> for ContainsMatcher<ContainerT, InnerMatcherT, CountMatcher> {
    open spec fn obeys_spec(&self) -> bool {
        self.inner().obeys_spec() && self.count().obeys_spec()
    }

    open spec fn spec_matches(&self, actual: &ContainerT) -> bool {
        self.count().spec_matches(&(matching_count(&self.inner(), actual.items()) as usize))
    }

    open spec fn spec_describe(&self, matcher_result: MatcherResult) -> Seq<char> {
        multiplicity_description(
            self.inner().spec_describe(MatcherResult::Match),
            self.count().spec_describe(MatcherResult::Match),
            matcher_result,
        )
    }

    open spec fn spec_explain_match(&self, actual: &ContainerT) -> Seq<char> {
        multiplicity_explanation(matching_count(&self.inner(), actual.items()))
    }

    fn matches(&self, actual: &ContainerT) -> (r: MatcherResult) {
        let count = self.count_matches(actual);
        self.count.matches(&count)
    }

    fn explain_match(&self, actual: &ContainerT) -> (s: String) {
        let count = self.count_matches(actual);
        let mut s = String::from_str("which contains ");
        s.append(usize_to_decimal(count).as_str());
        s.append(" matching elements");
        s
    }

    fn describe(&self, matcher_result: MatcherResult) -> (s: String) {
        let inner = self.inner.describe(MatcherResult::Match);
        let count = self.count.describe(MatcherResult::Match);
        let mut s = match matcher_result {
            MatcherResult::Match => String::from_str("contains n elements which "),
            MatcherResult::NoMatch => String::from_str("doesn't contain n elements which "),
        };
        s.append(inner.as_str());
        s.append("\n  where n ");
        s.append(count.as_str());
        s
    }
}

} // verus!
