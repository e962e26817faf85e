use esp_scaffold::text::{has_char, join_text, split_text, starts_with};

fn strings(parts: &[&str]) -> Vec<String> {
    parts.iter().map(|part| part.to_string()).collect()
}

#[test]
fn split_cuts_at_every_separator() {
    assert_eq!(split_text("a\nb\nc", '\n'), strings(&["a", "b", "c"]));
    assert_eq!(split_text("main/main.c", '/'), strings(&["main", "main.c"]));
}

#[test]
fn split_of_empty_text_is_one_empty_piece() {
    assert_eq!(split_text("", '\n'), strings(&[""]));
}

#[test]
fn split_keeps_empty_pieces() {
    assert_eq!(split_text("a\n", '\n'), strings(&["a", ""]));
    assert_eq!(split_text("\na", '\n'), strings(&["", "a"]));
    assert_eq!(split_text("a\n\nb", '\n'), strings(&["a", "", "b"]));
    assert_eq!(split_text("\n", '\n'), strings(&["", ""]));
}

#[test]
fn split_without_separator_is_the_text() {
    assert_eq!(split_text("no break here", '\n'), strings(&["no break here"]));
}

#[test]
fn split_counts_characters_not_bytes() {
    assert_eq!(split_text("äö/ü/€", '/'), strings(&["äö", "ü", "€"]));
    assert_eq!(split_text("a€b€", '€'), strings(&["a", "b", ""]));
}

#[test]
fn split_agrees_with_std() {
    for text in ["", "x", "\n", "a\nb", "a\n\n\nb\n", "\n\n", "one\ntwo\nthree\n"] {
        let expected: Vec<String> = text.split('\n').map(|s| s.to_string()).collect();
        assert_eq!(split_text(text, '\n'), expected, "text {:?}", text);
    }
}

#[test]
fn join_puts_separator_between_pieces() {
    assert_eq!(join_text(&strings(&["a", "b", "c"]), "\n"), "a\nb\nc");
    assert_eq!(join_text(&strings(&["a", "b"]), ", "), "a, b");
}

#[test]
fn join_of_nothing_is_empty() {
    assert_eq!(join_text(&Vec::new(), "\n"), "");
}

#[test]
fn join_of_one_piece_is_the_piece() {
    assert_eq!(join_text(&strings(&["alone"]), "\n"), "alone");
    assert_eq!(join_text(&strings(&[""]), "\n"), "");
}

#[test]
fn join_keeps_empty_pieces() {
    assert_eq!(join_text(&strings(&["a", ""]), "\n"), "a\n");
    assert_eq!(join_text(&strings(&["", "", ""]), "/"), "//");
}

#[test]
fn join_gives_back_what_was_split() {
    for text in ["", "x", "\n", "a\nb", "a\n\n\nb\n", "line one\nline two\n"] {
        assert_eq!(join_text(&split_text(text, '\n'), "\n"), text);
    }
}

#[test]
fn split_gives_back_what_was_joined() {
    let pieces = strings(&["cmake_minimum_required(VERSION 3.5)", "", "project(app)", ""]);
    assert_eq!(split_text(&join_text(&pieces, "\n"), '\n'), pieces);
}

#[test]
fn starts_with_finds_a_prefix() {
    assert!(starts_with("tmpl-1.0/main/main.c", "tmpl-1.0/"));
    assert!(starts_with("abc", "abc"));
    assert!(starts_with("abc", ""));
    assert!(starts_with("", ""));
    assert!(starts_with("€uro", "€"));
}

#[test]
fn starts_with_rejects_what_is_no_prefix() {
    assert!(!starts_with("tmpl-1.0/main/main.c", "other/"));
    assert!(!starts_with("ab", "abc"));
    assert!(!starts_with("", "a"));
    assert!(!starts_with("xabc", "abc"));
}

#[test]
fn has_char_finds_a_character() {
    assert!(has_char("a\nb", '\n'));
    assert!(has_char("\n", '\n'));
    assert!(has_char("abc€", '€'));
    assert!(!has_char("", '\n'));
    assert!(!has_char("abc", '\n'));
    assert!(!has_char("abc", 'A'));
}
