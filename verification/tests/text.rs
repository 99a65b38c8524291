use typist::text::{
    all_chars_in, ascii_punctuation, chars_of, count_words, decimal_string, ends_with,
    last_bytes, parse_unsigned, same, same_ignoring_ascii_case, strip_prefix, trim, trim_end,
    truncate_str, whitespace, CharClass,
};

#[test]
fn character_classes_are_those_of_unicode() {
    for n in 0..=0x10ffff_u32 {
        if let Some(c) = char::from_u32(n) {
            assert_eq!(whitespace(c), c.is_whitespace(), "{:x}", n);
            assert_eq!(ascii_punctuation(c), c.is_ascii_punctuation(), "{:x}", n);
        }
    }
}

#[test]
fn trimming() {
    for s in ["", " ", "a", " a ", "\u{3000}a b\n", "\t\t"] {
        assert_eq!(trim(s, CharClass::Whitespace), s.trim());
        assert_eq!(trim_end(s, CharClass::Whitespace), s.trim_end());
    }
    assert_eq!(trim("\"a\"b\"\"", CharClass::Quote), "a\"b");
    assert_eq!(trim_end("http://x//", CharClass::Slash), "http://x");
    assert_eq!(trim("。，！？、.a.", CharClass::CommandPunctuation), "a");
    assert_eq!(trim_end("a.b..", CharClass::Dot), "a.b");
}

#[test]
fn prefixes_and_suffixes() {
    assert_eq!(strip_prefix("heading x", "heading "), Some("x"));
    assert_eq!(strip_prefix("head", "heading "), None);
    assert_eq!(strip_prefix("中文字", "中文"), Some("字"));
    assert_eq!(strip_prefix("abc", ""), Some("abc"));
    assert!(ends_with("model.bin", ".bin"));
    assert!(!ends_with("bin", ".bin"));
    assert!(!ends_with("model.bim", ".bin"));
}

#[test]
fn comparing() {
    assert!(same("a", "a") && !same("a", "A") && !same("a", "ab"));
    assert!(same_ignoring_ascii_case("Mp3", "mP3"));
    assert!(!same_ignoring_ascii_case("mp3", "mp4"));
    assert!(!same_ignoring_ascii_case("mp3", "mp"));
    assert!(!same_ignoring_ascii_case("Ä", "ä"));
    assert_eq!(chars_of("aé中"), vec!['a', 'é', '中']);
}

#[test]
fn truncating() {
    assert_eq!(truncate_str("short", 5), "short");
    assert_eq!(truncate_str("longer text", 8), "longe...");
    assert_eq!(truncate_str("中文字符", 3), "...");
    assert_eq!(truncate_str("abcd", 2), "..");
    assert_eq!(truncate_str("abcd", 1), ".");
    assert_eq!(truncate_str("abcd", 0), "");
    assert_eq!(truncate_str("ab", 2), "ab");
    for n in 0..20 {
        assert!(truncate_str("中文 and a longer text", n).chars().count() <= n);
    }
}

#[test]
fn counting() {
    for s in ["", "  ", "a", " a b  c ", "a\u{3000}b", "x\ny\tz"] {
        assert_eq!(count_words(s), s.split_whitespace().count());
    }
    for s in ["", "a", "é", "中文", "🎤x"] {
        assert_eq!(chars_of(s).len(), s.chars().count());
    }
}

#[test]
fn numbers() {
    for n in [0_u128, 9, 10, 99, 100, 12345, u64::MAX as u128, u128::MAX] {
        assert_eq!(decimal_string(n), n.to_string());
    }
    assert_eq!(parse_unsigned("4294967295"), Some(u32::MAX));
    assert_eq!(parse_unsigned("4294967296"), None);
    assert_eq!(parse_unsigned("+0"), Some(0));
}

#[test]
fn ends_of_texts() {
    assert_eq!(last_bytes("abcdef", 3), "def");
    assert_eq!(last_bytes("ab", 3), "ab");
    assert_eq!(last_bytes("中文", 5), "文");
    assert_eq!(last_bytes("中文", 2), "");
    assert_eq!(last_bytes("é🎤", 5), "🎤");
}

#[test]
fn no_speech() {
    assert!(all_chars_in("... !? ", CharClass::NoSpeech));
    assert!(all_chars_in("", CharClass::NoSpeech));
    assert!(!all_chars_in("...a", CharClass::NoSpeech));
    assert!(!all_chars_in("。", CharClass::NoSpeech));
}
