//! The conjunction of any number of matchers over one value.
use crate::description::{
    lemma_render_single_plain, render_list, Description, INDENTATION_SIZE,
};
use crate::matcher::{which, Matcher, MatcherResult};
use crate::matchers::anything_matcher::{anything, anything_description};
use std::marker::PhantomData;
use vstd::prelude::*;
use vstd::string::*;

verus! {

/// Every component computes what its specification functions say.
pub open spec fn all_obey_spec<T: ?Sized, M: Matcher<T>>(components: Seq<M>) -> bool {
    forall|i: int| 0 <= i < components.len() ==> (#[trigger] components[i]).obeys_spec()
}

/// Every component matches `actual`.
pub open spec fn all_match<T: ?Sized, M: Matcher<T>>(components: Seq<M>, actual: &T) -> bool {
    forall|i: int| 0 <= i < components.len() ==> (#[trigger] components[i]).spec_matches(actual)
}

/// The descriptions of the components, in order.
pub open spec fn component_descriptions<T: ?Sized, M: Matcher<T>>(
    components: Seq<M>,
    matcher_result: MatcherResult,
) -> Seq<Seq<char>> {
    components.map_values(|c: M| c.spec_describe(matcher_result))
}

/// The components that do not match `actual`, in order.
pub open spec fn failing_components<T: ?Sized, M: Matcher<T>>(
    components: Seq<M>,
    actual: &T,
) -> Seq<M> {
    components.filter(|c: M| !c.spec_matches(actual))
}

/// The explanations of those components that do not match `actual`, in order.
pub open spec fn failure_explanations<T: ?Sized, M: Matcher<T>>(
    components: Seq<M>,
    actual: &T,
) -> Seq<Seq<char>> {
    failing_components(components, actual).map_values(|c: M| c.spec_explain_match(actual))
}

/// The line that introduces the list of the components' descriptions.
pub open spec fn all_header(matcher_result: MatcherResult) -> Seq<char> {
    match matcher_result {
        MatcherResult::Match => "has all the following properties"@,
        MatcherResult::NoMatch => "has at least one of the following properties"@,
    }
}

/// The description of the conjunction of `components`: that of the matcher
/// which matches anything when there is none, that of the component when
/// there is one, and else a header above the bulleted, indented list of the
/// components' descriptions.
pub open spec fn all_description<T: ?Sized, M: Matcher<T>>(
    components: Seq<M>,
    matcher_result: MatcherResult,
) -> Seq<char> {
    if components.len() == 0 {
        anything_description(matcher_result)
    } else if components.len() == 1 {
        components[0].spec_describe(matcher_result)
    } else {
        all_header(matcher_result) + seq![':', '\n'] + render_list(
            component_descriptions(components, matcher_result),
            INDENTATION_SIZE as nat,
            true,
        )
    }
}

/// The explanation of the conjunction of `components` on `actual`: that of
/// the matcher which matches anything when there is none, that of the
/// component when there is one; else the explanation of the failing
/// component when exactly one fails, and otherwise a line break followed by
/// the bulleted, indented list of the failing components' explanations.
pub open spec fn all_explanation<T: ?Sized, M: Matcher<T>>(
    components: Seq<M>,
    actual: &T,
) -> Seq<char> {
    if components.len() == 0 {
        which(anything_description(MatcherResult::Match))
    } else if components.len() == 1 {
        components[0].spec_explain_match(actual)
    } else {
        let failures = failure_explanations(components, actual);
        if failures.len() == 1 {
            failures[0]
        } else {
            seq!['\n'] + render_list(failures, INDENTATION_SIZE as nat, true)
        }
    }
}

/// One more component adds its description to those of the others.
pub proof fn lemma_descriptions_push<T: ?Sized, M: Matcher<T>>(
    components: Seq<M>,
    component: M,
    matcher_result: MatcherResult,
)
    ensures
        component_descriptions(components.push(component), matcher_result)
            == component_descriptions(components, matcher_result).push(
            component.spec_describe(matcher_result),
        ),
{
    components.lemma_push_map_commute(|c: M| c.spec_describe(matcher_result), component);
}

/// One more component adds its explanation to the failures exactly when it
/// does not match.
pub proof fn lemma_failures_push<T: ?Sized, M: Matcher<T>>(
    components: Seq<M>,
    component: M,
    actual: &T,
)
    ensures
        failure_explanations(components.push(component), actual) == if component.spec_matches(
            actual,
        ) {
            failure_explanations(components, actual)
        } else {
            failure_explanations(components, actual).push(component.spec_explain_match(actual))
        },
{
    components.lemma_filter_push(component, |c: M| !c.spec_matches(actual));
    if !component.spec_matches(actual) {
        failing_components(components, actual).lemma_push_map_commute(
            |c: M| c.spec_explain_match(actual),
            component,
        );
    }
}

/// All components match exactly when none of them fails.
pub proof fn lemma_all_match_iff_no_failure<T: ?Sized, M: Matcher<T>>(
    components: Seq<M>,
    actual: &T,
)
    ensures
        all_match(components, actual) <==> failure_explanations(components, actual).len() == 0,
    decreases components.len(),
{
    reveal(Seq::filter);
    if components.len() > 0 {
        let rest = components.drop_last();
        lemma_all_match_iff_no_failure(rest, actual);
        assert(components =~= rest.push(components.last()));
        lemma_failures_push(rest, components.last(), actual);
        if all_match(components, actual) {
            assert(components[components.len() - 1].spec_matches(actual));
            assert forall|i: int| 0 <= i < rest.len() implies (#[trigger] rest[i]).spec_matches(
                actual,
            ) by {
                assert(components[i].spec_matches(actual));
            }
        }
        if all_match(rest, actual) && components.last().spec_matches(actual) {
            assert forall|i: int| 0 <= i < components.len() implies (
            #[trigger] components[i]).spec_matches(actual) by {
                if i < rest.len() {
                    assert(rest[i].spec_matches(actual));
                }
            }
        }
    }
}

/// A matcher which matches a value that all the matchers of `components`
/// match.
///
/// The components are held by value; borrowed matchers, and borrowed
/// matchers of differing types behind `&dyn Matcher<T>`, are matchers too.
pub struct AllMatcher<T: ?Sized, M, const N: usize> {
    components: [M; N],
    phantom: PhantomData<T>,
}

impl<T: ?Sized, M: Matcher<T>, const N: usize> AllMatcher<T, M, N> {
    /// The component matchers, in order.
    pub closed spec fn components(&self) -> Seq<M> {
        self.components@
    }

    /// Constructs an `AllMatcher` with the given component matchers.
    pub fn new(components: [M; N]) -> (m: Self)
        ensures
            m.components() == components@,
    {
        Self { components, phantom: PhantomData }
    }

    /// Collects the descriptions of all the components.
    fn describe_components(&self, matcher_result: MatcherResult) -> (d: Description)
        ensures
            all_obey_spec(self.components()) ==> d.elements() == component_descriptions(
                self.components(),
                matcher_result,
            ),
            d.indent_size() == 0,
            !d.bulleted(),
    {
        let mut d = Description::new();
        let mut i: usize = 0;
        while i < N
            invariant
                i <= N,
                N == self.components().len(),
                all_obey_spec(self.components()) ==> d.elements() == component_descriptions(
                    self.components().subrange(0, i as int),
                    matcher_result,
                ),
                d.indent_size() == 0,
                !d.bulleted(),
            decreases N - i,
        {
            let component = &self.components[i];
            assert(*component == self.components()[i as int]);
            d.push(component.describe(matcher_result));
            proof {
                let before = self.components().subrange(0, i as int);
                assert(self.components().subrange(0, i + 1) =~= before.push(*component));
                lemma_descriptions_push(before, *component, matcher_result);
            }
            i = i + 1;
        }
        assert(self.components().subrange(0, N as int) =~= self.components());
        d
    }

    /// Collects the explanations of the components that do not match.
    fn explain_failures(&self, actual: &T) -> (d: Description)
        ensures
            all_obey_spec(self.components()) ==> d.elements() == failure_explanations(
                self.components(),
                actual,
            ),
            d.indent_size() == 0,
            !d.bulleted(),
    {
        let mut d = Description::new();
        let mut i: usize = 0;
        assert(failure_explanations(self.components().subrange(0, 0), actual) =~= Seq::<
            Seq<char>,
        >::empty()) by {
            reveal(Seq::filter);
        }
        while i < N
            invariant
                i <= N,
                N == self.components().len(),
                all_obey_spec(self.components()) ==> d.elements() == failure_explanations(
                    self.components().subrange(0, i as int),
                    actual,
                ),
                d.indent_size() == 0,
                !d.bulleted(),
            decreases N - i,
        {
            let component = &self.components[i];
            assert(*component == self.components()[i as int]);
            proof {
                let before = self.components().subrange(0, i as int);
                assert(self.components().subrange(0, i + 1) =~= before.push(*component));
                lemma_failures_push(before, *component, actual);
            }
            if !component.matches(actual).into_bool() {
                d.push(component.explain_match(actual));
            }
            i = i + 1;
        }
        assert(self.components().subrange(0, N as int) =~= self.components());
        d
    }
}

impl<T: ?Sized, M: Matcher<T>, const N: usize> Matcher<T> for AllMatcher<T, M, N> {
    open spec fn obeys_spec(&self) -> bool {
        all_obey_spec(self.components())
    }

    open spec fn spec_matches(&self, actual: &T) -> bool {
        all_match(self.components(), actual)
    }

    open spec fn spec_describe(&self, matcher_result: MatcherResult) -> Seq<char> {
        all_description(self.components(), matcher_result)
    }

    open spec fn spec_explain_match(&self, actual: &T) -> Seq<char> {
        all_explanation(self.components(), actual)
    }

    fn matches(&self, actual: &T) -> (r: MatcherResult) {
        let mut i: usize = 0;
        while i < N
            invariant
                i <= N,
                N == self.components().len(),
                all_obey_spec(self.components()) ==> all_match(
                    self.components().subrange(0, i as int),
                    actual,
                ),
            decreases N - i,
        {
            let component = &self.components[i];
            assert(*component == self.components()[i as int]);
            match component.matches(actual) {
                MatcherResult::NoMatch => {
                    return MatcherResult::NoMatch;
                },
                MatcherResult::Match => {},
            }
            proof {
                if all_obey_spec(self.components()) {
                    assert forall|j: int| 0 <= j < i + 1 implies (
                    #[trigger] self.components().subrange(0, i + 1)[j]).spec_matches(actual) by {
                        if j < i {
                            assert(self.components().subrange(0, i as int)[j].spec_matches(
                                actual,
                            ));
                        }
                    }
                }
            }
            i = i + 1;
        }
        assert(self.components().subrange(0, N as int) =~= self.components());
        MatcherResult::Match
    }

    fn explain_match(&self, actual: &T) -> (s: String) {
        if N == 0 {
            anything().explain_match(actual)
        } else if N == 1 {
            self.components[0].explain_match(actual)
        } else {
            let failures = self.explain_failures(actual);
            if failures.len() == 1 {
                proof {
                    if all_obey_spec(self.components()) {
                        let f = failure_explanations(self.components(), actual);
                        assert(f =~= seq![f[0]]);
                        lemma_render_single_plain(f[0]);
                    }
                }
                failures.render()
            } else {
                let mut s = String::from_str("\n");
                let list = failures.bullet_list().indent().render();
                s.append(list.as_str());
                proof {
                    reveal_strlit("\n");
                    assert("\n"@ =~= seq!['\n']);
                }
                s
            }
        }
    }

    fn describe(&self, matcher_result: MatcherResult) -> (s: String) {
        if N == 0 {
            <crate::matchers::anything_matcher::Anything as Matcher<T>>::describe(
                &anything(),
                matcher_result,
            )
        } else if N == 1 {
            self.components[0].describe(matcher_result)
        } else {
            let properties = self.describe_components(matcher_result).bullet_list().indent();
            let mut s = match matcher_result {
                MatcherResult::Match => String::from_str("has all the following properties"),
                MatcherResult::NoMatch => String::from_str(
                    "has at least one of the following properties",
                ),
            };
            s.append(":\n");
            s.append(properties.render().as_str());
            proof {
                reveal_strlit(":\n");
                assert(":\n"@ =~= seq![':', '\n']);
            }
            s
        }
    }
}

} // verus!
