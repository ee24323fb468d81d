use gfm::display::sanitize_text;
use gfm::display::truncate_string;
use gfm::text::join_from;
use gfm::text::parse_usize_or_zero;
use gfm::text::split_fields;
use gfm::text::split_lines;
use gfm::text::split_on;
use gfm::text::starts_with;
use gfm::text::str_eq;
use gfm::text::trim_char;
use gfm::text::trim_prefix;

#[test]
fn test_sanitize_removes_emojis() {
    assert_eq!(sanitize_text("Hello 🗑️ World"), "Hello  World");
    assert_eq!(sanitize_text("Test 🎉🎊 Done"), "Test  Done");
}

#[test]
fn test_sanitize_keeps_ascii() {
    assert_eq!(sanitize_text("Hello World!"), "Hello World!");
    assert_eq!(sanitize_text("file.rs +10 -5"), "file.rs +10 -5");
}

#[test]
fn test_sanitize_keeps_accented() {
    assert_eq!(sanitize_text("café"), "café");
    assert_eq!(sanitize_text("naïve"), "naïve");
}

#[test]
fn truncate_short_string_is_kept() {
    assert_eq!(truncate_string("short", 10), "short");
    assert_eq!(truncate_string("exactly-10", 10), "exactly-10");
}

#[test]
fn truncate_long_string_gets_dots() {
    assert_eq!(truncate_string("a very long subject line", 10), "a very ...");
}

#[test]
fn split_lines_handles_trailing_newline() {
    let lines = split_lines("one\ntwo\n");
    assert_eq!(lines, vec!["one".to_string(), "two".to_string()]);
    let lines = split_lines("one\ntwo");
    assert_eq!(lines, vec!["one".to_string(), "two".to_string()]);
    assert_eq!(split_lines(""), Vec::<String>::new());
    assert_eq!(split_lines("a\r\nb"), vec!["a".to_string(), "b".to_string()]);
}

#[test]
fn split_on_keeps_empty_pieces() {
    assert_eq!(split_on("a  b", ' '), vec!["a".to_string(), "".to_string(), "b".to_string()]);
    assert_eq!(split_on("", ' '), vec!["".to_string()]);
}

#[test]
fn split_fields_drops_empty_pieces() {
    assert_eq!(split_fields(" +1  -2 "), vec!["+1".to_string(), "-2".to_string()]);
}

#[test]
fn join_from_restores_spaced_path() {
    let parts = split_on("1 M. N... 100644 100644 100644 a b my file.txt", ' ');
    assert_eq!(join_from(&parts, 8, ' '), "my file.txt");
}

#[test]
fn parse_usize_or_zero_is_lenient() {
    assert_eq!(parse_usize_or_zero("42"), 42);
    assert_eq!(parse_usize_or_zero("0"), 0);
    assert_eq!(parse_usize_or_zero("-"), 0);
    assert_eq!(parse_usize_or_zero(""), 0);
    assert_eq!(parse_usize_or_zero("12x"), 0);
    assert_eq!(parse_usize_or_zero("999999999999999999999999999999"), 0);
}

#[test]
fn trim_helpers_strip_leading_matter() {
    assert_eq!(trim_prefix("# branch.head main", "# branch.head "), "main");
    assert_eq!(trim_char("+12", '+'), "12");
    assert_eq!(trim_char("--3", '-'), "3");
    assert!(starts_with("# branch.ab +1 -2", "# branch.ab "));
    assert!(str_eq("same", "same"));
    assert!(!str_eq("same", "other"));
}
