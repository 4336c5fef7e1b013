use googletest::description::{make_spaces, pad_text, render_one, Description};
use googletest::text::{has_prefix, has_suffix, i64_to_decimal, join2, u64_to_decimal, usize_to_decimal};

#[test]
fn decimal_numerals_have_no_leading_zeros() {
    assert_eq!(u64_to_decimal(0), "0");
    assert_eq!(u64_to_decimal(7), "7");
    assert_eq!(u64_to_decimal(10), "10");
    assert_eq!(u64_to_decimal(1002003), "1002003");
    assert_eq!(u64_to_decimal(9876543210), "9876543210");
    assert_eq!(u64_to_decimal(u64::MAX), "18446744073709551615");
    assert_eq!(usize_to_decimal(42), "42");
}

#[test]
fn negative_numerals_carry_a_minus_sign() {
    assert_eq!(i64_to_decimal(0), "0");
    assert_eq!(i64_to_decimal(-1), "-1");
    assert_eq!(i64_to_decimal(120), "120");
    assert_eq!(i64_to_decimal(i64::MAX), "9223372036854775807");
    assert_eq!(i64_to_decimal(i64::MIN), "-9223372036854775808");
}

#[test]
fn texts_are_joined_in_order() {
    assert_eq!(join2("ab", "cd"), "abcd");
    assert_eq!(join2("", "cd"), "cd");
    assert_eq!(join2("ab", ""), "ab");
}

#[test]
fn prefix_and_suffix_checks() {
    assert!(has_prefix("A string", "A"));
    assert!(has_prefix("A string", ""));
    assert!(has_prefix("A string", "A string"));
    assert!(!has_prefix("A string", "A string!"));
    assert!(!has_prefix("A string", "a"));
    assert!(has_suffix("A string", "string"));
    assert!(has_suffix("A string", ""));
    assert!(!has_suffix("A string", "strinG"));
    assert!(!has_suffix("ring", "string"));
}

#[test]
fn blanks_and_padding() {
    assert_eq!(make_spaces(0), "");
    assert_eq!(make_spaces(3), "   ");
    assert_eq!(pad_text("one\ntwo\n", "--"), "one\n--two\n--");
    assert_eq!(pad_text("", "--"), "");
    assert_eq!(pad_text("one", ""), "one");
}

#[test]
fn one_element_is_laid_out_with_aligned_lines() {
    assert_eq!(render_one("one", 0, false), "one");
    assert_eq!(render_one("one\ntwo", 2, false), "  one\n  two");
    assert_eq!(render_one("one\ntwo", 0, true), "* one\n  two");
    assert_eq!(render_one("one\ntwo", 2, true), "  * one\n    two");
}

#[test]
fn an_empty_description_is_laid_out_as_nothing() {
    let description = Description::new();

    assert_eq!(description.len(), 0);
    assert_eq!(description.render(), "");
    assert_eq!(Description::new().bullet_list().indent().render(), "");
}

#[test]
fn a_plain_description_separates_its_elements_by_line_breaks() {
    let mut description = Description::new();
    description.push("first".to_string());
    description.push("second".to_string());

    assert_eq!(description.len(), 2);
    assert_eq!(description.render(), "first\nsecond");
}

#[test]
fn a_description_is_indented_and_bulleted_on_request() {
    let elements = vec!["first".to_string(), "second\nline".to_string(), "third".to_string()];

    assert_eq!(
        Description::from_elements(elements.clone()).indent().render(),
        "  first\n  second\n  line\n  third"
    );
    assert_eq!(
        Description::from_elements(elements.clone()).bullet_list().render(),
        "* first\n* second\n  line\n* third"
    );
    assert_eq!(
        Description::from_elements(elements).bullet_list().indent().render(),
        "  * first\n  * second\n    line\n  * third"
    );
}
