use status_line::text::{
    chars_of, clone_texts, decimal_text, same_text, starts_with, strip_leading_exec,
    two_digits_text,
};

#[test]
fn chars_are_read_in_order() {
    assert_eq!(chars_of("a/b"), vec!['a', '/', 'b']);
    assert_eq!(chars_of(""), Vec::<char>::new());
    assert_eq!(chars_of("é€"), vec!['é', '€']);
}

#[test]
fn same_text_compares_characters() {
    assert!(same_text("audio", "audio"));
    assert!(same_text("", ""));
    assert!(!same_text("audio", "audi"));
    assert!(!same_text("audio", "audip"));
    assert!(!same_text("", "a"));
}

#[test]
fn starts_with_looks_at_the_front() {
    assert!(starts_with("battery_BAT0", "battery_"));
    assert!(starts_with("battery_", "battery_"));
    assert!(starts_with("anything", ""));
    assert!(!starts_with("batter", "battery_"));
    assert!(!starts_with("xbattery_", "battery_"));
}

#[test]
fn strip_leading_removes_every_repetition() {
    assert_eq!(strip_leading_exec("ababc", "ab"), "c");
    assert_eq!(strip_leading_exec("abab", "ab"), "");
    assert_eq!(strip_leading_exec("aab", "ab"), "aab");
    assert_eq!(strip_leading_exec("abc", ""), "abc");
    assert_eq!(strip_leading_exec("", "ab"), "");
    assert_eq!(strip_leading_exec("ééx", "é"), "x");
}

#[test]
fn numbers_are_written_in_decimal() {
    assert_eq!(decimal_text(9), "9");
    assert_eq!(decimal_text(10), "10");
    assert_eq!(decimal_text(0), "0");
    assert_eq!(decimal_text(7), "7");
    assert_eq!(decimal_text(20), "20");
    assert_eq!(decimal_text(1234567890), "1234567890");
    assert_eq!(decimal_text(u64::MAX), "18446744073709551615");
}

#[test]
fn two_digits_pad_with_a_zero() {
    assert_eq!(two_digits_text(0), "00");
    assert_eq!(two_digits_text(5), "05");
    assert_eq!(two_digits_text(10), "10");
    assert_eq!(two_digits_text(59), "59");
    assert_eq!(two_digits_text(123), "123");
}

#[test]
fn clone_texts_copies_each_string() {
    let list = vec!["a".to_owned(), String::new(), "bc".to_owned()];
    assert_eq!(clone_texts(&list), list);
    assert_eq!(clone_texts(&Vec::new()), Vec::<String>::new());
}
