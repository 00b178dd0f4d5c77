use sonictok::unicode::{is_letter, is_number, is_o200k_lower, is_o200k_upper, is_whitespace};

#[test]
fn ascii_letters() {
    assert!(is_letter('a') && is_letter('Z'));
    assert!(!is_letter('1') && !is_letter(' ') && !is_letter('!'));
}
#[test]
fn unicode_letters() {
    assert!(is_letter('é') && is_letter('日') && is_letter('Ω'));
}
#[test]
fn numbers() {
    assert!(is_number('7') && is_number('٣') /* arabic-indic 3 */);
    assert!(!is_number('a'));
}
#[test]
fn whitespace() {
    assert!(is_whitespace(' ') && is_whitespace('\t') && is_whitespace('\n'));
    assert!(is_whitespace('\u{00A0}') /* nbsp */);
    assert!(!is_whitespace('a'));
}
#[test]
fn o200k_case_classes() {
    assert!(is_o200k_upper('A') && !is_o200k_upper('a'));
    assert!(is_o200k_lower('a') && !is_o200k_lower('A'));
    // Lo letters count on both sides.
    assert!(is_o200k_upper('日') && is_o200k_lower('日'));
}
