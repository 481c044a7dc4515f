use dot_setup::text::{chars_of, contains, join, same, split_lines, text_of};

#[test]
fn contains_finds_a_substring_anywhere() {
    assert!(contains("hello world", "hello"));
    assert!(contains("hello world", "o w"));
    assert!(contains("hello world", "world"));
    assert!(contains("hello world", "hello world"));
}

#[test]
fn contains_rejects_what_is_not_there() {
    assert!(!contains("hello world", "worlds"));
    assert!(!contains("hello", "hello world"));
    assert!(!contains("", "a"));
    assert!(!contains("abab", "abb"));
}

#[test]
fn contains_takes_the_empty_needle_everywhere() {
    assert!(contains("abc", ""));
    assert!(contains("", ""));
}

#[test]
fn contains_works_on_characters_not_bytes() {
    assert!(contains("✓ done ✗", "✗"));
    assert!(contains("naïve café", "ïve c"));
    assert!(!contains("naive", "ï"));
}

#[test]
fn same_compares_contents() {
    assert!(same("repos", "repos"));
    assert!(!same("repos", "repo"));
    assert!(!same("cargo", "terra"));
    assert!(same("", ""));
}

#[test]
fn chars_and_text_round_trip() {
    let chars = chars_of("a✓b");
    assert_eq!(chars, vec!['a', '✓', 'b']);
    assert_eq!(text_of(&chars, 0, 3), "a✓b");
    assert_eq!(text_of(&chars, 1, 2), "✓");
    assert_eq!(text_of(&chars, 2, 2), "");
}

#[test]
fn split_lines_splits_at_line_feeds() {
    assert_eq!(split_lines("one\ntwo\nthree"), vec!["one", "two", "three"]);
}

#[test]
fn split_lines_ignores_one_final_terminator() {
    assert_eq!(split_lines("one\ntwo\n"), vec!["one", "two"]);
    assert_eq!(split_lines("one\n\n"), vec!["one", ""]);
}

#[test]
fn split_lines_of_nothing_is_nothing() {
    assert_eq!(split_lines(""), Vec::<String>::new());
    assert_eq!(split_lines("\n"), vec![""]);
}

#[test]
fn split_lines_drops_the_carriage_return_of_a_terminator() {
    assert_eq!(split_lines("one\r\ntwo\r\n"), vec!["one", "two"]);
    assert_eq!(split_lines("one\rtwo\nlast\r"), vec!["one\rtwo", "last\r"]);
}

#[test]
fn split_lines_agrees_with_the_standard_library() {
    let samples = [
        "",
        "\n",
        "a",
        "a\n",
        "a\nb",
        "a\r\nb\r\n",
        "\r\n\r\n",
        "x\r",
        "\r",
        "a\n\nb\n\n",
        "ü\n✓\r\n",
    ];
    for sample in samples {
        let expected: Vec<String> = sample.lines().map(|l| l.to_string()).collect();
        assert_eq!(split_lines(sample), expected, "for {:?}", sample);
    }
}

#[test]
fn join_puts_the_separator_between_neighbours() {
    let parts = vec!["git".to_string(), "vim".to_string(), "htop".to_string()];
    assert_eq!(join(&parts, " "), "git vim htop");
    assert_eq!(join(&parts, ", "), "git, vim, htop");
}

#[test]
fn join_of_one_or_none_has_no_separator() {
    assert_eq!(join(&vec!["only".to_string()], " "), "only");
    assert_eq!(join(&Vec::new(), " "), "");
}
