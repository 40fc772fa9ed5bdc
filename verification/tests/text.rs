use spqtify::text::{
    after_last, is_blank, join, lowercase_contains, parse_usize, push_decimal, replace_char,
    split_on, strip_prefix, strip_suffix, trim, trim_end_char, trim_start_char,
};

#[test]
fn trim_matches_std_on_unicode_whitespace() {
    for s in ["  a b  ", "\u{a0}x\u{3000}", "\t\n", "", "x", "\u{2028} y \u{205f}"] {
        assert_eq!(trim(s), s.trim());
        assert_eq!(is_blank(s), s.trim().is_empty());
    }
}

#[test]
fn prefixes_suffixes_and_separators() {
    assert_eq!(strip_suffix("a.mp4", ".mp4"), Some("a".to_string()));
    assert_eq!(strip_suffix("a.mp3", ".mp4"), None);
    assert_eq!(strip_prefix("/pre/x", "/pre"), Some("/x".to_string()));
    assert_eq!(strip_prefix("/x", "/pre"), None);
    assert_eq!(trim_end_char("a///", '/'), "a");
    assert_eq!(trim_start_char("//a/", '/'), "a/");
    assert_eq!(after_last("spotify:track:id", ':'), Some("id".to_string()));
    assert_eq!(after_last("x:", ':'), Some(String::new()));
    assert_eq!(after_last("x", ':'), None);
    assert_eq!(replace_char("a\u{a0}b", '\u{a0}', ' '), "a b");
    assert_eq!(split_on("a,,b,", ','), vec!["a", "", "b", ""]);
    assert_eq!(split_on("", ','), vec![""]);
    assert_eq!(join(&vec!["a".to_string(), "b".to_string()], ", "), "a, b");
    assert_eq!(join(&vec![], ", "), "");
}

#[test]
fn numbers_and_search() {
    for s in ["0", "+7", "18446744073709551615", "18446744073709551616", "-1", "", "+", "1x", " 1"] {
        assert_eq!(parse_usize(s), s.parse::<usize>().ok());
    }
    let mut out = String::from("n=");
    push_decimal(&mut out, 340282366920938463463374607431768211455);
    assert_eq!(out, "n=340282366920938463463374607431768211455");
    assert!(lowercase_contains("A DiScOrDbot", "discord"));
    assert!(!lowercase_contains("disc", "discord"));
    assert!(lowercase_contains("", ""));
}
