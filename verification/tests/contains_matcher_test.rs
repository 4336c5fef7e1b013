use googletest::matcher::{Matcher, MatcherResult};
use googletest::matchers::conjunction_matcher::ConjunctionMatcher;
use googletest::matchers::contains_matcher::{contains, ContainsMatcher};
use googletest::matchers::eq_matcher::eq;

#[test]
fn contains_matches_singleton_slice_with_value() {
    let matcher = contains(eq(1));

    let result = matcher.matches(&vec![1]);

    assert_eq!(result, MatcherResult::Match);
}

#[test]
fn contains_matches_singleton_vec_with_value() {
    let matcher = contains(eq(1));

    let result = matcher.matches(&vec![1]);

    assert_eq!(result, MatcherResult::Match);
}

#[test]
fn contains_matches_two_element_slice_with_value() {
    let matcher = contains(eq(1));

    let result = matcher.matches(&[0, 1]);

    assert_eq!(result, MatcherResult::Match);
}

#[test]
fn contains_does_not_match_singleton_slice_with_wrong_value() {
    let matcher = contains(eq(1));

    let result = matcher.matches(&[0]);

    assert_eq!(result, MatcherResult::NoMatch);
}

#[test]
fn contains_does_not_match_empty_slice() {
    let matcher = contains(eq(1));

    let result = matcher.matches(&([] as [i32; 0]));

    assert_eq!(result, MatcherResult::NoMatch);
}

#[test]
fn contains_matches_slice_with_repeated_value() {
    let matcher = contains(eq(1)).times(eq(2));

    let result = matcher.matches(&[1, 1]);

    assert_eq!(result, MatcherResult::Match);
}

#[test]
fn contains_does_not_match_slice_with_too_few_of_value() {
    let matcher = contains(eq(1)).times(eq(2));

    let result = matcher.matches(&[0, 1]);

    assert_eq!(result, MatcherResult::NoMatch);
}

#[test]
fn contains_does_not_match_slice_with_too_many_of_value() {
    let matcher = contains(eq(1)).times(eq(1));

    let result = matcher.matches(&[1, 1]);

    assert_eq!(result, MatcherResult::NoMatch);
}

#[test]
fn contains_formats_without_multiplicity_by_default() {
    let matcher: ContainsMatcher<Vec<i32>, _, _> = contains(eq(1));

    assert_eq!(
        Matcher::describe(&matcher, MatcherResult::Match),
        "contains at least one element which is equal to 1"
    );
}

#[test]
fn contains_formats_with_multiplicity_when_specified() {
    let matcher: ContainsMatcher<Vec<i32>, _, _> = contains(eq(1)).times(eq(2));

    assert_eq!(
        Matcher::describe(&matcher, MatcherResult::Match),
        "contains n elements which is equal to 1\n  where n is equal to 2"
    );
}

#[test]
fn contains_mismatch_shows_number_of_times_element_was_found() {
    assert_eq!(
        contains(eq(3)).times(eq(1)).explain_match(&vec![1, 2, 3, 3]),
        "which contains 2 matching elements"
    );
}

#[test]
fn contains_mismatch_shows_when_matches() {
    assert_eq!(
        contains(eq(3)).explain_match(&vec![1, 2, 3, 3]),
        "which contains a matching element"
    );
}

#[test]
fn contains_mismatch_shows_when_no_matches() {
    assert_eq!(
        contains(eq(3)).explain_match(&vec![1, 2]),
        "which does not contain a matching element"
    );
}

#[test]
fn contains_describes_a_mismatch() {
    let matcher: ContainsMatcher<Vec<i32>, _, _> = contains(eq(1));

    assert_eq!(
        Matcher::describe(&matcher, MatcherResult::NoMatch),
        "contains no element which is equal to 1"
    );
}

#[test]
fn contains_with_multiplicity_describes_a_mismatch() {
    let matcher: ContainsMatcher<Vec<i32>, _, _> = contains(eq(-7)).times(eq(10));

    assert_eq!(
        Matcher::describe(&matcher, MatcherResult::NoMatch),
        "doesn't contain n elements which is equal to -7\n  where n is equal to 10"
    );
}

#[test]
fn contains_zero_times_tests_for_absence() {
    let matcher = contains(eq(1)).times(eq(0));

    assert_eq!(matcher.matches(&vec![2, 3]), MatcherResult::Match);
    assert_eq!(matcher.matches(&vec![2, 1]), MatcherResult::NoMatch);
    assert_eq!(matcher.matches(&Vec::<i32>::new()), MatcherResult::Match);
    assert_eq!(matcher.explain_match(&vec![2, 3]), "which contains 0 matching elements");
}

#[test]
fn contains_counts_the_matching_elements() {
    let matcher: ContainsMatcher<Vec<i32>, _, _> = contains(eq(3));

    assert_eq!(matcher.count_matches(&vec![1, 2, 3, 3]), 2);
    assert_eq!(matcher.count_matches(&[3, 3, 3]), 3);
    assert_eq!(matcher.count_matches(&[1, 2]), 0);
    assert_eq!(matcher.count_matches(&([] as [i32; 0])), 0);
}

#[test]
fn contains_visits_slices() {
    let values = vec![4, 5, 6];
    let matcher = contains(eq(6));

    assert_eq!(matcher.matches(&values[..]), MatcherResult::Match);
    assert_eq!(matcher.matches(&values[..2]), MatcherResult::NoMatch);
}

#[test]
fn contains_can_be_nested() {
    let matcher = contains(contains(eq(1)));

    assert_eq!(matcher.matches(&vec![vec![0], vec![0, 1]]), MatcherResult::Match);
    assert_eq!(matcher.matches(&vec![vec![0], vec![2]]), MatcherResult::NoMatch);
    let described: ContainsMatcher<Vec<Vec<i32>>, _, _> = contains(contains(eq(1)));
    assert_eq!(
        Matcher::describe(&described, MatcherResult::Match),
        "contains at least one element which contains at least one element which is equal to 1"
    );
}

#[test]
fn and_matches_what_both_sides_match() {
    let matcher = contains(eq(1)).and(contains(eq(2)));

    assert_eq!(matcher.matches(&vec![1, 2]), MatcherResult::Match);
    assert_eq!(matcher.matches(&vec![1, 3]), MatcherResult::NoMatch);
    assert_eq!(matcher.matches(&vec![3, 2]), MatcherResult::NoMatch);
    assert_eq!(
        matcher.explain_match(&vec![1, 3]),
        "which does not contain a matching element"
    );
    assert_eq!(
        matcher.explain_match(&vec![1, 2]),
        "which contains a matching element and\n  which contains a matching element"
    );
}

#[test]
fn and_describes_both_sides() {
    let matcher = ConjunctionMatcher::new(eq(1), eq(2));

    assert_eq!(
        Matcher::<i32>::describe(&matcher, MatcherResult::Match),
        "is equal to 1, and is equal to 2"
    );
    assert_eq!(
        Matcher::<i32>::describe(&matcher, MatcherResult::NoMatch),
        "isn't equal to 1, and isn't equal to 2"
    );
}

#[test]
fn eq_describes_and_explains() {
    assert_eq!(Matcher::<u64>::describe(&eq(18446744073709551615u64), MatcherResult::Match),
        "is equal to 18446744073709551615");
    assert_eq!(eq(5).explain_match(&5), "which is equal to 5");
    assert_eq!(eq(5).explain_match(&6), "which isn't equal to 5");
    assert_eq!(eq("a\tb").explain_match(&"a\tb"), "which is equal to \"a\\tb\"");
    assert_eq!(eq("a".to_string()).matches(&"b".to_string()), MatcherResult::NoMatch);
}

#[test]
fn matcher_results_stand_for_truth_values() {
    assert_eq!(MatcherResult::from_bool(true), MatcherResult::Match);
    assert_eq!(MatcherResult::from_bool(false), MatcherResult::NoMatch);
    assert!(MatcherResult::Match.into_bool());
    assert!(!MatcherResult::NoMatch.into_bool());
}

#[test]
fn matcher_results_convert_to_and_from_truth_values() {
    let matched: MatcherResult = true.into();
    let unmatched: MatcherResult = false.into();

    assert_eq!(matched, MatcherResult::Match);
    assert_eq!(unmatched, MatcherResult::NoMatch);
    assert!(bool::from(MatcherResult::Match));
    assert!(!bool::from(MatcherResult::NoMatch));
}
