use vantumpos::text::{normalized, trimmed_or_none_string};

#[test]
fn trimming_strips_unicode_white_space_at_both_ends_only() {
    assert_eq!(normalized("  Pera Perić \t"), "Pera Perić");
    assert_eq!(normalized("\u{3000}\u{a0}ab c\u{2028}\u{85}"), "ab c");
    assert_eq!(normalized(" \u{200b}x"), "\u{200b}x", "a zero-width space is not White_Space");
    assert_eq!(normalized("\n\r "), "");
    assert_eq!(normalized(""), "");
    assert_eq!(trimmed_or_none_string(Some(" \t".to_string())), None);
    assert_eq!(trimmed_or_none_string(Some(" ok ".to_string())).as_deref(), Some("ok"));
    assert_eq!(trimmed_or_none_string(None), None);
}
