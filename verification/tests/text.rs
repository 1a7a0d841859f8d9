use crypnotes::text::{blank, str_eq, trimmed};

#[test]
fn trimming_follows_unicode_whitespace() {
    assert_eq!(trimmed("\u{3000}\u{2028} a b \t\r\n\u{85}"), "a b");
    assert_eq!(trimmed("\u{200b}x\u{200b}"), "\u{200b}x\u{200b}");
    assert_eq!(trimmed(""), "");
    let sample = " \u{a0}\u{1680}mixed\u{202f}\u{205f}";
    assert_eq!(trimmed(sample), sample.trim());
}

#[test]
fn blank_detects_whitespace_only() {
    assert!(blank(""));
    assert!(blank(" \t\u{2000}\u{200a}"));
    assert!(!blank(" . "));
}

#[test]
fn string_equality_by_characters() {
    assert!(str_eq("paragraph", "paragraph"));
    assert!(!str_eq("paragraph", "paragraphs"));
    assert!(!str_eq("heading1", "heading2"));
}
