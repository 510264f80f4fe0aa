use selection_monitor::text::{
    blank, contains, contains_in_ascii_lowercase, contains_in_lowercase, decimal,
    same_ignoring_ascii_case, text_of_utf16,
};

#[test]
fn exactly_the_white_space_characters_are_blank() {
    let mut expected: Vec<u32> = vec![0x20, 0x85, 0xa0, 0x1680, 0x2028, 0x2029, 0x202f, 0x205f, 0x3000];
    expected.extend(0x09..=0x0d);
    expected.extend(0x2000..=0x200a);
    expected.sort_unstable();
    let found: Vec<u32> =
        ('\0'..=char::MAX).filter(|c| blank(&c.to_string())).map(|c| c as u32).collect();
    assert_eq!(found, expected);
}

#[test]
fn blank_is_what_trim_leaves_empty() {
    for s in ["", " ", "\t\r\n", "\u{3000}\u{a0}", " a ", "\u{200b}", "x", "  .\n"] {
        assert_eq!(blank(s), s.trim().is_empty(), "{s:?}");
    }
}

#[test]
fn ascii_case_is_ignored_and_no_other() {
    assert!(same_ignoring_ascii_case("Scintilla", "SCINTILLA"));
    assert!(same_ignoring_ascii_case("", ""));
    assert!(!same_ignoring_ascii_case("edit", "edits"));
    assert!(!same_ignoring_ascii_case("\u{212a}", "k"));
    assert!(!same_ignoring_ascii_case("\u{c9}dit", "\u{e9}dit"));
    assert!(same_ignoring_ascii_case("@[`{", "@[`{"));
    assert!(!same_ignoring_ascii_case("@", "`"));
}

#[test]
fn finds_parts() {
    assert!(contains("abcabd", "abd"));
    assert!(contains("abc", ""));
    assert!(contains("", ""));
    assert!(!contains("", "a"));
    assert!(!contains("aab", "ba"));
    assert!(contains("\u{4f60}\u{597d}cherry", "\u{597d}c"));
    assert!(contains_in_ascii_lowercase("RICHEDIT50W", "richedit"));
    assert!(!contains_in_ascii_lowercase("richedit", "RICHEDIT"));
}

#[test]
fn unicode_letters_are_lowered_too() {
    assert!(contains_in_lowercase("GR\u{dc}N", "gr\u{fc}n"));
    assert!(!contains_in_ascii_lowercase("GR\u{dc}N", "gr\u{fc}n"));
    assert!(contains_in_lowercase("\u{212a}", "k"));
}

#[test]
fn decodes_utf16() {
    let units: Vec<u16> = "n\u{e4}chste \u{1d11e}!".encode_utf16().collect();
    assert_eq!(text_of_utf16(&units, units.len()), "n\u{e4}chste \u{1d11e}!");
    assert_eq!(text_of_utf16(&units, 2), "n\u{e4}");
    assert_eq!(text_of_utf16(&units, 0), "");
    assert_eq!(text_of_utf16(&[0x61, 0xd834, 0x62], 3), "a\u{fffd}b");
    assert_eq!(text_of_utf16(&[0xdc00, 0x62], 2), "\u{fffd}b");
}

#[test]
fn every_lone_half_of_a_pair_is_replaced() {
    let decoded = |units: &[u16]| text_of_utf16(units, units.len());
    assert_eq!(decoded(&[0xd800, 0xdc00]), "\u{10000}");
    assert_eq!(decoded(&[0xdbff, 0xdfff]), "\u{10ffff}");
    assert_eq!(decoded(&[0xd83d, 0xde00, 0x21]), "\u{1f600}!");
    assert_eq!(decoded(&[0xd800, 0xd800, 0xdc00]), "\u{fffd}\u{10000}");
    assert_eq!(decoded(&[0xdc00, 0xd800]), "\u{fffd}\u{fffd}");
    assert_eq!(decoded(&[0xd7ff, 0xe000, 0xffff]), "\u{d7ff}\u{e000}\u{ffff}");
    assert_eq!(decoded(&[0xd800]), "\u{fffd}");
}

#[test]
fn writes_decimals() {
    for n in [0, 7, 9, 10, 99, 100, 1005, 4_294_967_296, u64::MAX] {
        assert_eq!(decimal(n), n.to_string());
    }
}
