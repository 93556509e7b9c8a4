//! The syntax of names, and the strings behind it.

use business_approval::identifiers::{
    valid_idempotency_key, valid_identifier, valid_instance, valid_kind, valid_reason,
    valid_reference, valid_request_id, valid_secret_reference,
};
use business_approval::text::{
    borrow_optional, decimal_text, is_control, is_white_space, joined, own_optional, same_text,
};

#[test]
fn identifiers_and_reasons_remain_narrow() {
    assert!(valid_request_id("apr_42"));
    assert!(!valid_request_id("apr/42"));
    assert!(valid_kind("expense.review"));
    assert!(!valid_kind("Expense Review"));
    assert!(valid_reason(Some("Within policy")));
    assert!(!valid_reason(Some("   ")));
}

#[test]
fn every_byte_is_in_the_alphabets_or_out_of_them() {
    for byte in 0u8..128 {
        let text = char::from(byte).to_string();
        let identifier =
            byte.is_ascii_alphanumeric() || matches!(byte, b'.' | b'_' | b'-' | b':');
        assert_eq!(valid_request_id(&text), identifier, "{byte}");
        assert_eq!(valid_reference(&text), identifier || byte == b'/', "{byte}");
        assert_eq!(
            valid_kind(&text),
            byte.is_ascii_lowercase() || byte.is_ascii_digit(),
            "{byte}"
        );
        let middle = format!("a{text}a");
        assert_eq!(
            valid_kind(&middle),
            byte.is_ascii_lowercase()
                || byte.is_ascii_digit()
                || matches!(byte, b'.' | b'_' | b'-'),
            "{byte}"
        );
    }
    assert!(!valid_request_id("\u{e4}"));
    assert!(!valid_reference("\u{e4}"));
    assert!(!valid_kind("\u{e4}"));
}

#[test]
fn names_are_bounded_in_length() {
    assert!(!valid_request_id(""));
    assert!(valid_request_id(&"a".repeat(128)));
    assert!(!valid_request_id(&"a".repeat(129)));
    assert!(!valid_idempotency_key(""));
    assert!(valid_idempotency_key(&"a".repeat(256)));
    assert!(!valid_idempotency_key(&"a".repeat(257)));
    assert!(!valid_instance(""));
    assert!(valid_instance(&"a".repeat(256)));
    assert!(!valid_instance(&"a".repeat(257)));
    assert!(!valid_reference(""));
    assert!(valid_reference(&"a".repeat(512)));
    assert!(!valid_reference(&"a".repeat(513)));
    assert!(!valid_kind(""));
    assert!(valid_kind(&"a".repeat(128)));
    assert!(!valid_kind(&"a".repeat(129)));
    assert!(valid_identifier("abc", 3));
    assert!(!valid_identifier("abc", 2));
    assert!(!valid_identifier("", 0));
}

#[test]
fn a_kind_begins_and_ends_with_a_letter_or_digit() {
    assert!(valid_kind("a.b_c-1"));
    assert!(!valid_kind(".a"));
    assert!(!valid_kind("a-"));
    assert!(!valid_kind("_"));
}

#[test]
fn a_reason_is_visible_short_and_free_of_controls() {
    assert!(valid_reason(None));
    assert!(!valid_reason(Some("")));
    assert!(!valid_reason(Some("\u{3000}\u{2003} ")));
    assert!(valid_reason(Some("  x  ")));
    assert!(!valid_reason(Some("a\tb")));
    assert!(!valid_reason(Some("a\u{85}b")));
    assert!(valid_reason(Some("Genehmigt f\u{fc}r M\u{e4}rz")));
    assert!(valid_reason(Some(&"a".repeat(1_000))));
    assert!(!valid_reason(Some(&"a".repeat(1_001))));
    assert!(valid_reason(Some(&"\u{e4}".repeat(500))));
    assert!(!valid_reason(Some(&"\u{e4}".repeat(501))));
}

#[test]
fn a_secret_reference_is_a_path_of_plain_segments() {
    for valid in [
        "a",
        "business-approval/database-url",
        "a/b/c",
        "...",
        ".a/b.",
        "a/...",
        "a..b/c",
        "a:b",
    ] {
        assert!(valid_secret_reference(valid), "{valid}");
    }
    for invalid in [
        "", "/", "/a", "a/", "a//b", ".", "..", "./a", "../a", "a/.", "a/..", "a/./b", "a/../b",
        "a b", "a\\b", "\u{e4}",
    ] {
        assert!(!valid_secret_reference(invalid), "{invalid}");
    }
    assert!(valid_secret_reference(&"a".repeat(256)));
    assert!(!valid_secret_reference(&"a".repeat(257)));
}

#[test]
fn characters_are_classed_as_in_the_standard_library() {
    for code in 0..=0x10_ffff {
        if let Some(c) = char::from_u32(code) {
            assert_eq!(is_white_space(c), c.is_whitespace(), "{code:x}");
            assert_eq!(is_control(c), c.is_control(), "{code:x}");
        }
    }
}

#[test]
fn numerals_are_written_as_in_the_standard_library() {
    for n in [0, 1, 9, 10, 11, 99, 100, 1_234_567_890, u64::MAX] {
        assert_eq!(decimal_text(n), n.to_string());
    }
}

#[test]
fn texts_are_compared_and_joined() {
    assert!(same_text("", ""));
    assert!(same_text("\u{e4}b", "\u{e4}b"));
    assert!(!same_text("a", "b"));
    assert!(!same_text("a", "ab"));
    assert_eq!(joined("a", "\u{e4}", "c"), "a\u{e4}c");
    assert_eq!(borrow_optional(&Some("a".to_owned())), Some("a"));
    assert_eq!(borrow_optional(&None), None);
    assert_eq!(own_optional(Some("a")), Some("a".to_owned()));
    assert_eq!(own_optional(None), None);
}
