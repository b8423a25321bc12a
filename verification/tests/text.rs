use omni::text::{decimal_text, joined, signed_decimal_text};

#[test]
fn naturals_are_written_in_decimal() {
    assert_eq!(decimal_text(0), "0");
    assert_eq!(decimal_text(9), "9");
    assert_eq!(decimal_text(10), "10");
    assert_eq!(decimal_text(12345), "12345");
    assert_eq!(decimal_text(1000000), "1000000");
    assert_eq!(decimal_text(u64::MAX), "18446744073709551615");
}

#[test]
fn decimal_agrees_with_the_standard_library() {
    let mut n: u64 = 1;
    while n < u64::MAX / 7 {
        assert_eq!(decimal_text(n), n.to_string());
        assert_eq!(decimal_text(n - 1), (n - 1).to_string());
        n *= 7;
    }
}

#[test]
fn integers_are_written_with_their_sign() {
    assert_eq!(signed_decimal_text(0), "0");
    assert_eq!(signed_decimal_text(-1), "-1");
    assert_eq!(signed_decimal_text(42), "42");
    assert_eq!(signed_decimal_text(-2147483648), "-2147483648");
    assert_eq!(signed_decimal_text(i64::MAX), "9223372036854775807");
    assert_eq!(signed_decimal_text(i64::MIN), "-9223372036854775808");
}

#[test]
fn joining_puts_one_text_after_the_other() {
    assert_eq!(joined("", ""), "");
    assert_eq!(joined("a", ""), "a");
    assert_eq!(joined("", "b"), "b");
    assert_eq!(joined("Error: ", "bad case"), "Error: bad case");
}
