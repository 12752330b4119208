use kaspawallet_egui::text::{
    decimal_text, invalid_field_text, is_blank_text, nonblank_lines, parse_trimmed_u64,
    parse_u64_field, same_text, split_lines, strip_prefix_text, trimmed,
};

#[test]
fn split_lines_trims_and_drops_blank_items() {
    assert_eq!(
        split_lines("kpubA, kpubB\n\n  kpubC  ,,\n"),
        vec!["kpubA".to_string(), "kpubB".to_string(), "kpubC".to_string()]
    );
}

#[test]
fn split_lines_of_empty_text_is_empty() {
    assert!(split_lines("").is_empty());
    assert!(split_lines(" \n , \t").is_empty());
}

#[test]
fn split_lines_keeps_inner_spaces() {
    assert_eq!(split_lines(" a b , c\td "), vec!["a b".to_string(), "c\td".to_string()]);
}

#[test]
fn joined_items_split_back() {
    let items = vec!["kpub1".to_string(), "kpub2 x".to_string(), "kpub3".to_string()];
    assert_eq!(split_lines(&items.join("\n")), items);
    assert_eq!(nonblank_lines(&items.join("\n")), items);
}

#[test]
fn nonblank_lines_keep_commas_and_drop_carriage_returns() {
    assert_eq!(
        nonblank_lines("word1 word2, word3\r\n\r\n  word4  \n"),
        vec!["word1 word2, word3".to_string(), "word4".to_string()]
    );
}

#[test]
fn trimming_follows_unicode_whitespace() {
    assert_eq!(trimmed("\u{3000}\u{a0} node:16110 \t\n"), "node:16110");
    assert_eq!(trimmed("x"), "x");
    assert_eq!(trimmed("   "), "");
    assert_eq!(trimmed("\u{200b}x"), "\u{200b}x");
}

#[test]
fn blank_text_is_only_whitespace() {
    assert!(is_blank_text(""));
    assert!(is_blank_text(" \t\r\n\u{2028}"));
    assert!(!is_blank_text(" . "));
}

#[test]
fn decimal_text_writes_base_ten() {
    assert_eq!(decimal_text(0), "0");
    assert_eq!(decimal_text(7), "7");
    assert_eq!(decimal_text(404), "404");
    assert_eq!(decimal_text(u64::MAX), "18446744073709551615");
}

#[test]
fn parsing_decimal_text_gives_the_number_back() {
    for n in [0u64, 9, 10, 99, 100, 65535, 1 << 40, u64::MAX] {
        assert_eq!(parse_trimmed_u64(&decimal_text(n)), Some(n));
        assert_eq!(parse_u64_field("max fee", &decimal_text(n)), Ok(n));
    }
}

#[test]
fn parse_u64_field_accepts_what_std_accepts() {
    assert_eq!(parse_u64_field("max fee", " 42 "), Ok(42));
    assert_eq!(parse_u64_field("max fee", "+7"), Ok(7));
    assert_eq!(parse_u64_field("max fee", "007"), Ok(7));
    assert_eq!(parse_u64_field("max fee", "18446744073709551615"), Ok(u64::MAX));
    for text in ["", " ", "+", "-1", "1.5", "1_000", "18446744073709551616", "12a", "+-3"] {
        assert_eq!(parse_trimmed_u64(text), text.trim().parse::<u64>().ok(), "{text:?}");
    }
}

#[test]
fn parse_u64_field_names_the_field_in_its_error() {
    assert_eq!(parse_u64_field("max fee", " -1 "), Err("invalid max fee:  -1 ".to_string()));
    assert_eq!(
        parse_u64_field("max fee", "18446744073709551616"),
        Err("invalid max fee: 18446744073709551616".to_string())
    );
    assert_eq!(invalid_field_text("fee rate", "x"), "invalid fee rate: x");
}

#[test]
fn same_text_compares_characters() {
    assert!(same_text("ready", "ready"));
    assert!(!same_text("ready", "Ready"));
    assert!(!same_text("ready", "ready "));
}

#[test]
fn strip_prefix_text_gives_the_rest() {
    assert_eq!(strip_prefix_text("READY http://x", "READY "), Some("http://x".to_string()));
    assert_eq!(strip_prefix_text("READY", "READY "), None);
    assert_eq!(strip_prefix_text("ready x", "READY "), None);
}
