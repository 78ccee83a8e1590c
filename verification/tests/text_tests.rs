use vibe_coding_voice_native::text::{
    contains, decimal, is_blank, normalize_text, starts_with, trim, trim_end_char,
};

#[test]
fn normalize_collapses_whitespace_runs() {
    assert_eq!(normalize_text("  hello \t\n world  "), "hello world");
}

#[test]
fn normalize_handles_unicode_spaces() {
    assert_eq!(normalize_text("\u{3000}帮我\u{3000}\u{3000}改代码\u{a0}"), "帮我 改代码");
}

#[test]
fn normalize_of_blank_is_empty() {
    assert_eq!(normalize_text(" \t\r\n "), "");
    assert_eq!(normalize_text(""), "");
}

#[test]
fn normalize_is_idempotent_on_examples() {
    for s in ["  a  b  ", "x", "\n\ny  z\t", "中 文  测试"] {
        let once = normalize_text(s);
        assert_eq!(normalize_text(&once), once);
    }
}

#[test]
fn normalize_agrees_with_split_whitespace() {
    for s in ["a\u{2003}b", " line1\r\nline2 ", "tab\tsep", "\u{85}x\u{2028}y"] {
        let expected = s.split_whitespace().collect::<Vec<_>>().join(" ");
        assert_eq!(normalize_text(s), expected);
    }
}

#[test]
fn trim_matches_std() {
    for s in ["  x y  ", "\u{3000}文\u{3000}", "", "   ", "a"] {
        assert_eq!(trim(s), s.trim());
    }
    assert!(is_blank(" \u{a0}\t"));
    assert!(!is_blank(" a "));
}

#[test]
fn trim_end_char_strips_slashes() {
    assert_eq!(trim_end_char("wss://host/path///", '/'), "wss://host/path");
    assert_eq!(trim_end_char("abc", '/'), "abc");
}

#[test]
fn decimal_renders_numbers() {
    assert_eq!(decimal(0), "0");
    assert_eq!(decimal(7), "7");
    assert_eq!(decimal(16000), "16000");
    assert_eq!(decimal(u64::MAX), u64::MAX.to_string());
}

#[test]
fn substring_checks() {
    assert!(starts_with("wss://a", "wss://"));
    assert!(!starts_with("ws://a", "wss://"));
    assert!(contains("error: Missing required metadata key: vocab_size", "vocab_size"));
    assert!(!contains("abc", "abcd"));
    assert!(contains("abc", ""));
}
