use ani::text::{decimal_string, join_strings, replace_first_occurrence};

#[test]
fn decimal_of_zero_positive_and_negative() {
    assert_eq!(decimal_string(0), "0");
    assert_eq!(decimal_string(97986), "97986");
    assert_eq!(decimal_string(-42), "-42");
    assert_eq!(decimal_string(i64::MIN), "-9223372036854775808");
    assert_eq!(decimal_string(i64::MAX), "9223372036854775807");
}

#[test]
fn join_with_separator() {
    let parts = vec!["TV".to_string(), "13 episodes".to_string(), "2017".to_string()];
    assert_eq!(join_strings(&parts, " \u{b7} "), "TV \u{b7} 13 episodes \u{b7} 2017");
    assert_eq!(join_strings(&Vec::new(), "; "), "");
    assert_eq!(join_strings(&vec!["only".to_string()], "; "), "only");
}

#[test]
fn replace_first_only() {
    assert_eq!(replace_first_occurrence("a-b-c", "-", "+"), "a+b-c");
    assert_eq!(replace_first_occurrence("abc", "x", "y"), "abc");
    assert_eq!(replace_first_occurrence("#compdef ani\nrest", "#compdef ani", "#compdef ani\nX"), "#compdef ani\nX\nrest");
    assert_eq!(replace_first_occurrence("ab", "abc", "z"), "ab");
    assert_eq!(replace_first_occurrence("aaa", "aa", "b"), "ba");
}
