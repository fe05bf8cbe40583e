use ktra::text::{chars_of, drop_chars, ends_with, lines, same_text, skip_chars, split, starts_with, text_of};

#[test]
fn split_keeps_empty_pieces() {
    assert_eq!(split("a//b/", '/'), vec!["a", "", "b", ""]);
    assert_eq!(split("", '/'), vec![""]);
    assert_eq!(split("abc", '/'), vec!["abc"]);
}

#[test]
fn lines_drop_the_last_empty_piece_and_carriage_returns() {
    assert_eq!(lines("a\nb\r\nc\n"), vec!["a", "b", "c"]);
    assert_eq!(lines("a\n\nb"), vec!["a", "", "b"]);
    assert!(lines("").is_empty());
}

#[test]
fn text_of_builds_the_chosen_range() {
    let chars = chars_of("serde");
    assert_eq!(chars, vec!['s', 'e', 'r', 'd', 'e']);
    assert_eq!(text_of(&chars, 1, 4), "erd");
    assert_eq!(text_of(&chars, 2, 2), "");
}

#[test]
fn prefixes_and_suffixes() {
    assert!(starts_with("https://github.com/a", "https://github.com/"));
    assert!(!starts_with("http", "https"));
    assert!(ends_with("widget.git", ".git"));
    assert!(!ends_with("git", ".git"));
    assert!(same_text("é", "é"));
    assert!(!same_text("a", "b"));
    assert_eq!(skip_chars("héllo", 2), "llo");
    assert_eq!(drop_chars("héllo", 3), "hé");
}
