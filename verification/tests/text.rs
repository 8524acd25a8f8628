//! Text helpers.
use llama_cpp::text::{is_blank, join, trim_leading_slashes, write_numeral};

#[test]
fn blank_text_is_what_trims_to_nothing() {
    for n in 0..=0x10ffffu32 {
        if let Some(c) = char::from_u32(n) {
            let text = c.to_string();
            assert_eq!(is_blank(&text), text.trim().is_empty(), "U+{:04X}", n);
        }
    }
    assert!(is_blank(""));
    assert!(is_blank(" \t\r\n\u{3000}"));
    assert!(!is_blank("  x "));
}

#[test]
fn leading_slashes_are_trimmed() {
    for path in ["", "/", "///", "a", "/a", "//a/b/", "\u{e9}/x", "/\u{e9}/"] {
        assert_eq!(trim_leading_slashes(path), path.trim_start_matches('/'));
    }
}

#[test]
fn parts_are_joined() {
    let parts = |parts: &[&str]| -> Vec<String> { parts.iter().map(|p| p.to_string()).collect() };
    assert_eq!(join(&parts(&[]), "\n"), "");
    assert_eq!(join(&parts(&["a"]), "\n"), "a");
    assert_eq!(join(&parts(&["a", "", "b"]), ", "), "a, , b");
}

#[test]
fn numerals_are_decimal() {
    for n in [0usize, 1, 9, 10, 42, 100, 1234567890, usize::MAX] {
        assert_eq!(write_numeral(n), n.to_string());
    }
}
