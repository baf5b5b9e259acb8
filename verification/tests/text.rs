use cortex_mem::text::{count_words, decimal_text, eq_ignore_ascii_case};

#[test]
fn ascii_case_insensitive_equality() {
    assert!(eq_ignore_ascii_case("Closed", "cLOSED"));
    assert!(!eq_ignore_ascii_case("Closed", "Close"));
    assert!(!eq_ignore_ascii_case("É", "é"));
    assert!(eq_ignore_ascii_case("", ""));
}

#[test]
fn decimal_rendering() {
    assert_eq!(decimal_text(0), "0");
    assert_eq!(decimal_text(7), "7");
    assert_eq!(decimal_text(10), "10");
    assert_eq!(decimal_text(120034), "120034");
    assert_eq!(decimal_text(u64::MAX), "18446744073709551615");
}

#[test]
fn word_counting() {
    assert_eq!(count_words(""), 0);
    assert_eq!(count_words("   "), 0);
    assert_eq!(count_words("one"), 1);
    assert_eq!(count_words("  two words  "), 2);
    assert_eq!(count_words("a\tb\nc\r\nd"), 4);
    assert_eq!(count_words("x\u{3000}y\u{00a0}z"), 3);
    assert_eq!(count_words("héllo wörld"), 2);
}
