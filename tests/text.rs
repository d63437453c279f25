use wdk::text::{bool_string, decimal_string, signed_decimal_string, str_eq_ignore_ascii_case};

#[test]
fn decimals_have_no_leading_zeros() {
    assert_eq!(decimal_string(0), "0");
    assert_eq!(decimal_string(10), "10");
    assert_eq!(decimal_string(u128::MAX), u128::MAX.to_string());
}

#[test]
fn negative_decimals_carry_a_minus() {
    assert_eq!(signed_decimal_string(-1), "-1");
    assert_eq!(signed_decimal_string(0), "0");
    assert_eq!(signed_decimal_string(i128::MIN), i128::MIN.to_string());
    assert_eq!(signed_decimal_string(i128::MAX), i128::MAX.to_string());
}

#[test]
fn booleans_render_as_words() {
    assert_eq!(bool_string(true), "true");
    assert_eq!(bool_string(false), "false");
}

#[test]
fn ascii_case_is_ignored_and_nothing_else() {
    assert!(str_eq_ignore_ascii_case("Hello", "hELLO"));
    assert!(str_eq_ignore_ascii_case("", ""));
    assert!(!str_eq_ignore_ascii_case("Hello", "Hell"));
    assert!(!str_eq_ignore_ascii_case("É", "é"));
    assert!(!str_eq_ignore_ascii_case("[", "{"));
}
