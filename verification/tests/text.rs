use todo_list::text::{decimal_text, padded_text, parse_number, same_text};

#[test]
fn same_text_compares_the_characters() {
    assert!(same_text("", ""));
    assert!(same_text("add", "add"));
    assert!(same_text("\u{e9}t\u{e9}", "\u{e9}t\u{e9}"));
    assert!(!same_text("add", "ad"));
    assert!(!same_text("add", "adds"));
    assert!(!same_text("add", "Add"));
    assert!(!same_text("", "x"));
    assert!(!same_text("\u{e9}", "e"));
}

#[test]
fn decimal_text_writes_the_number() {
    assert_eq!(decimal_text(0), "0");
    assert_eq!(decimal_text(7), "7");
    assert_eq!(decimal_text(10), "10");
    assert_eq!(decimal_text(1234567890), "1234567890");
    assert_eq!(decimal_text(u64::MAX), "18446744073709551615");
}

#[test]
fn padded_text_fills_up_with_zeros() {
    assert_eq!(padded_text(7, 2), "07");
    assert_eq!(padded_text(12, 2), "12");
    assert_eq!(padded_text(123, 2), "123");
    assert_eq!(padded_text(0, 4), "0000");
    assert_eq!(padded_text(2024, 4), "2024");
    assert_eq!(padded_text(5, 0), "5");
    assert_eq!(padded_text(5, 1), "5");
}

#[test]
fn parse_number_reads_decimal_digits() {
    assert_eq!(parse_number("0"), Some(0));
    assert_eq!(parse_number("12"), Some(12));
    assert_eq!(parse_number("007"), Some(7));
    assert_eq!(parse_number("999"), Some(999));
    assert_eq!(parse_number("18446744073709551615"), Some(u64::MAX));
    assert_eq!(parse_number("00018446744073709551615"), Some(u64::MAX));
}

#[test]
fn parse_number_refuses_what_is_no_number() {
    assert_eq!(parse_number(""), None);
    assert_eq!(parse_number("12a"), None);
    assert_eq!(parse_number("a12"), None);
    assert_eq!(parse_number("+1"), None);
    assert_eq!(parse_number("-1"), None);
    assert_eq!(parse_number(" 1"), None);
    assert_eq!(parse_number("1.0"), None);
    assert_eq!(parse_number("\u{661}"), None);
}

#[test]
fn parse_number_refuses_what_does_not_fit() {
    assert_eq!(parse_number("18446744073709551616"), None);
    assert_eq!(parse_number("18446744073709551620"), None);
    assert_eq!(parse_number("99999999999999999999999"), None);
    assert_eq!(parse_number("184467440737095516150"), None);
}

#[test]
fn a_written_number_is_read_back() {
    for n in [0, 1, 9, 10, 99, 100, 12345, u64::MAX / 10, u64::MAX - 1, u64::MAX] {
        assert_eq!(parse_number(&decimal_text(n)), Some(n));
    }
}
