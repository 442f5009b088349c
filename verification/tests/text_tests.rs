use job_tracker::text::{byte_length, contains_char, decimal, same_text};

#[test]
fn numbers_are_written_in_decimal() {
    assert_eq!(decimal(0), "0");
    assert_eq!(decimal(7), "7");
    assert_eq!(decimal(10), "10");
    assert_eq!(decimal(1_234_567_890), "1234567890");
    assert_eq!(decimal(u64::MAX), "18446744073709551615");
}

#[test]
fn text_helpers() {
    assert_eq!(byte_length("é"), 2);
    assert!(contains_char("a@b", '@'));
    assert!(!contains_char("ab", '@'));
    assert!(same_text("ab", "ab"));
    assert!(!same_text("ab", "aB"));
}
