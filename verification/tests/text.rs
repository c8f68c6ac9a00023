use dict_core::text::{is_english_text, is_white_space_char, text_equals, trim_text};

/// The ratio test written with floating point, as a reference.
fn english_by_ratio(text: &str) -> bool {
    let skipped = ".,!?;:'\"()-[]{}/\\_+=*&^%$#@~`|<>";
    let mut total = 0usize;
    let mut alpha = 0usize;
    for ch in text.trim().chars() {
        if ch.is_whitespace() || skipped.contains(ch) {
            continue;
        }
        total += 1;
        if ch.is_ascii_alphabetic() {
            alpha += 1;
        }
    }
    if total == 0 || alpha == 0 {
        return false;
    }
    alpha as f64 / total as f64 >= 0.60
}

#[test]
fn white_space_matches_std_on_every_char() {
    for u in 0u32..=0x10FFFF {
        if let Some(c) = char::from_u32(u) {
            assert_eq!(is_white_space_char(c), c.is_whitespace(), "U+{:04X}", u);
        }
    }
}

#[test]
fn english_sentences() {
    assert!(is_english_text("Hello world"));
    assert!(is_english_text("The quick brown fox jumps over the lazy dog."));
    assert!(is_english_text("  serendipity\n"));
    assert!(is_english_text("don't stop (please)!"));
}

#[test]
fn non_english_text() {
    assert!(!is_english_text("你好，世界"));
    assert!(!is_english_text("こんにちは"));
    assert!(!is_english_text("Привет мир"));
}

#[test]
fn empty_and_blank_text_is_not_english() {
    assert!(!is_english_text(""));
    assert!(!is_english_text("   \t\n\r "));
    assert!(!is_english_text("\u{3000}\u{a0}"));
}

#[test]
fn digits_and_symbols_only_are_not_english() {
    assert!(!is_english_text("1234567"));
    assert!(!is_english_text("!!! ??? ..."));
    assert!(!is_english_text("12.5 + 3 = 15.5"));
}

#[test]
fn sixty_percent_threshold() {
    // 3 letters of 5 counted characters: exactly 60%.
    assert!(is_english_text("abc12"));
    // 2 letters of 4: 50%.
    assert!(!is_english_text("ab12"));
    // 2 of 3: about 67%.
    assert!(is_english_text("ab1"));
    // 3 of 9.
    assert!(!is_english_text("abc123456"));
    // 6 of 10: 60% with mixed scripts.
    assert!(is_english_text("abcdef中文字符"));
    // 5 of 9: just under.
    assert!(!is_english_text("abcde中文字符"));
}

#[test]
fn punctuation_and_white_space_are_not_counted() {
    // Only "ab" and "1" count: 2 of 3.
    assert!(is_english_text("a-b (1) [] {} <> \"'`~|"));
    // Non-breaking and ideographic spaces are white space too.
    assert!(is_english_text("\u{a0}word\u{3000}"));
}

#[test]
fn english_agrees_with_the_ratio_reference() {
    let pieces = [
        "a", "Z", "1", "中", " ", ".", "é", "ß", "\u{2003}", "-", "x9", "😀", "\t", "k",
    ];
    // Every string of up to four pieces.
    let n = pieces.len();
    for a in 0..n {
        for b in 0..n {
            for c in 0..n {
                for d in 0..n {
                    let s = format!("{}{}{}{}", pieces[a], pieces[b], pieces[c], pieces[d]);
                    assert_eq!(is_english_text(&s), english_by_ratio(&s), "{:?}", s);
                }
            }
        }
    }
}

#[test]
fn english_ignores_surrounding_white_space() {
    for s in ["  abc  ", "\n12ab\t", "\u{2028}中文ab\u{2029}", "   ", "x"] {
        assert_eq!(is_english_text(&trim_text(s)), is_english_text(s), "{:?}", s);
    }
}

#[test]
fn trim_matches_std() {
    let samples = [
        "",
        "   ",
        "abc",
        "  abc  ",
        "\t\n abc def \r\n",
        "\u{3000}中文\u{3000}",
        "\u{a0}\u{85}x\u{1680}",
        " a b ",
        "\u{200b}zero width\u{200b}",
        "😀 ",
    ];
    for s in samples {
        assert_eq!(trim_text(s), s.trim(), "{:?}", s);
    }
}

#[test]
fn text_equality() {
    assert!(text_equals("show", "show"));
    assert!(!text_equals("show", "shows"));
    assert!(!text_equals("shows", "show"));
    assert!(!text_equals("show", "quit"));
    assert!(text_equals("", ""));
    assert!(!text_equals("", "a"));
    assert!(text_equals("中文", "中文"));
    assert!(!text_equals("中文", "中字"));
}
