use ytgui::text::{
    chars_of, decimal_text, digits_text, first_line, joined, last_line, same_text, split_lines,
    text_contains,
};

fn lines(s: &str) -> Vec<String> {
    split_lines(s)
}

#[test]
fn lines_split_at_line_feeds_and_drop_carriage_returns() {
    assert_eq!(lines("a\r\nb\nc"), vec!["a", "b", "c"]);
    assert_eq!(lines("a\r\nb\nc"), "a\r\nb\nc".lines().collect::<Vec<_>>());
}

#[test]
fn lines_of_empty_text_are_none() {
    assert!(lines("").is_empty());
}

#[test]
fn final_line_feed_adds_no_empty_line() {
    assert_eq!(lines("one\ntwo\n"), vec!["one", "two"]);
    assert_eq!(lines("\n"), vec![""]);
    assert_eq!(lines("\n\n"), vec!["", ""]);
}

#[test]
fn lone_carriage_return_at_end_is_kept() {
    assert_eq!(lines("a\r"), vec!["a\r"]);
    assert_eq!(lines("a\rb\n"), vec!["a\rb"]);
}

#[test]
fn lines_agree_with_std_on_assorted_texts() {
    for s in ["x", "x\ny", "\r\n", "a\r\r\n", "üñî\ncode\r\n", "{\"a\": 1}\n{\"b\": 2}\n", "\r"] {
        let expected: Vec<String> = s.lines().map(String::from).collect();
        assert_eq!(lines(s), expected, "text {:?}", s);
    }
}

#[test]
fn first_and_last_line() {
    assert_eq!(first_line("first\nsecond\nthird\n"), Some("first".to_string()));
    assert_eq!(last_line("first\nsecond\nthird\n"), Some("third".to_string()));
    assert_eq!(last_line("ERROR: boom\r\n"), Some("ERROR: boom".to_string()));
    assert_eq!(first_line(""), None);
    assert_eq!(last_line(""), None);
    assert_eq!(first_line("\nlater"), Some(String::new()));
}

#[test]
fn contains_finds_substrings() {
    assert!(text_contains("[Merger] Merging formats", "Merging"));
    assert!(text_contains("abc", ""));
    assert!(text_contains("abc", "abc"));
    assert!(!text_contains("ab", "abc"));
    assert!(!text_contains("Merg ing", "Merging"));
    assert!(text_contains("çğüş[ffmpeg]", "[ffmpeg]"));
}

#[test]
fn same_text_compares_characters() {
    assert!(same_text("none", "none"));
    assert!(!same_text("none", "avc1"));
    assert!(!same_text("non", "none"));
}

#[test]
fn decimal_rendering_matches_to_string() {
    for n in [0i64, 7, 10, 305, 720, 2160, -1, -42, i64::MAX, i64::MIN] {
        assert_eq!(decimal_text(n), n.to_string());
    }
    assert_eq!(digits_text(u64::MAX), u64::MAX.to_string());
}

#[test]
fn joined_and_chars() {
    assert_eq!(joined("Maks ", "720"), "Maks 720");
    assert_eq!(chars_of("aİb"), vec!['a', 'İ', 'b']);
}
