use echo_feed::text::{contains_text, decimal_i64, decimal_u64, escape, hex_u64};

#[test]
fn decimal_of_signed_values() {
    assert_eq!(decimal_i64(0), "0");
    assert_eq!(decimal_i64(1234567), "1234567");
    assert_eq!(decimal_i64(-5), "-5");
    assert_eq!(decimal_i64(i64::MIN), "-9223372036854775808");
    assert_eq!(decimal_i64(i64::MAX), "9223372036854775807");
}

#[test]
fn decimal_of_unsigned_values() {
    assert_eq!(decimal_u64(10), "10");
    assert_eq!(decimal_u64(u64::MAX), "18446744073709551615");
}

#[test]
fn hex_without_leading_zeros() {
    assert_eq!(hex_u64(0), "0");
    assert_eq!(hex_u64(255), "ff");
    assert_eq!(hex_u64(0x1a2b), "1a2b");
    assert_eq!(hex_u64(u64::MAX), "ffffffffffffffff");
}

#[test]
fn escape_replaces_markup_characters() {
    assert_eq!(escape("plain text"), "plain text");
    assert_eq!(escape(""), "");
    assert_eq!(
        escape("<a href='x'>&\"</a>"),
        "&lt;a href=&#39;x&#39;&gt;&amp;&quot;&lt;/a&gt;"
    );
    assert_eq!(escape("é<ü"), "é&lt;ü");
}

#[test]
fn contains_finds_substrings() {
    assert!(contains_text("Ask HN: new feature", "HN: "));
    assert!(!contains_text("HN:new", "HN: "));
    assert!(contains_text("abc", ""));
    assert!(!contains_text("ab", "abc"));
    assert!(contains_text("xxHN: ", "HN: "));
}
