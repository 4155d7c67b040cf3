use rippy::db::{ClipEntry, StoreError};
use rippy::cli::{can_truncate, copy_outcome, data_dir, CopyOutcome, db_path, entry_line, pid_path, truncate};

#[test]
fn truncate_short_single_line_is_unchanged() {
    assert_eq!(truncate("hello", 80), "hello");
    assert_eq!(truncate("", 80), "");
    assert_eq!(truncate("exactly", 7), "exactly");
}

#[test]
fn truncate_marks_more_lines() {
    assert_eq!(truncate("first\nsecond", 80), "first\u{2026}");
    assert_eq!(truncate("first\r\nsecond", 80), "first\u{2026}");
    assert_eq!(truncate("\nsecond", 80), "\u{2026}");
}

#[test]
fn truncate_trailing_newline_is_one_line() {
    assert_eq!(truncate("only\n", 80), "only");
    assert_eq!(truncate("only\r\n", 80), "only");
    // a carriage return not followed by a newline stays in the line
    assert_eq!(truncate("a\rb", 80), "a\rb");
}

#[test]
fn truncate_cuts_long_lines_at_max_bytes() {
    let long = "x".repeat(100);
    let expected = format!("{}\u{2026}", "x".repeat(60));
    assert_eq!(truncate(&long, 60), expected);
    assert_eq!(truncate("abcdef\nmore", 3), "abc\u{2026}");
}

#[test]
fn truncate_counts_bytes_not_characters() {
    // "é" is two bytes: four of them are eight bytes
    assert_eq!(truncate("\u{e9}\u{e9}\u{e9}\u{e9}", 6), "\u{e9}\u{e9}\u{e9}\u{2026}");
    assert_eq!(truncate("\u{e9}\u{e9}\u{e9}\u{e9}", 8), "\u{e9}\u{e9}\u{e9}\u{e9}");
}

#[test]
fn can_truncate_only_at_character_boundaries() {
    assert!(can_truncate("\u{e9}\u{e9}\u{e9}\u{e9}", 6));
    assert!(!can_truncate("\u{e9}\u{e9}\u{e9}\u{e9}", 5));
    assert!(can_truncate("\u{e9}", 1) == false);
    assert!(can_truncate("\u{e9}", 2));
    assert!(can_truncate("\u{e9}", 10));
    assert!(can_truncate("abc", 0));
    assert!(can_truncate("", 0));
    // only the first line matters
    assert!(can_truncate("ab\n\u{e9}\u{e9}\u{e9}", 1));
}

#[test]
fn entry_line_pads_the_id() {
    assert_eq!(entry_line(7, "2024-01-02 03:04:05", "hello"), "    7 \u{2502} 2024-01-02 03:04:05 \u{2502} hello");
    assert_eq!(entry_line(12345, "t", "p"), "12345 \u{2502} t \u{2502} p");
    assert_eq!(entry_line(1234567, "t", "p"), "1234567 \u{2502} t \u{2502} p");
    assert_eq!(entry_line(-3, "t", ""), "   -3 \u{2502} t \u{2502} ");
    assert_eq!(entry_line(0, "", ""), "    0 \u{2502}  \u{2502} ");
}

#[test]
fn entry_line_matches_format() {
    for id in [1i64, 42, 999, 10000, 99999, 100000, i64::MAX, i64::MIN] {
        assert_eq!(entry_line(id, "T", "P"), format!("{:>5} \u{2502} {} \u{2502} {}", id, "T", "P"));
    }
}

#[test]
fn data_paths() {
    assert_eq!(data_dir(Some("/Users/me")), "/Users/me/.local/share/rippy");
    assert_eq!(data_dir(Some("/home/me/")), "/home/me/.local/share/rippy");
    assert_eq!(data_dir(None), "./rippy");
    assert_eq!(db_path("/d/rippy"), "/d/rippy/history.db");
    assert_eq!(pid_path("/d/rippy"), "/d/rippy/rippy.pid");
    assert_eq!(db_path("/d/rippy/"), "/d/rippy/history.db");
}

fn sample_entry(content: &str) -> ClipEntry {
    ClipEntry { id: 7, content: content.to_string(), hash: String::new(), timestamp: 0, app_name: None }
}

#[test]
fn copy_outcome_copies_a_found_entry() {
    match copy_outcome(7, Ok(Some(sample_entry("first line\nsecond")))) {
        CopyOutcome::Copy { content, message } => {
            assert_eq!(content, "first line\nsecond");
            assert_eq!(message, "Copied to clipboard: first line\u{2026}");
        }
        CopyOutcome::Fail { .. } => panic!("a found entry is copied"),
    }
    let long = "x".repeat(70);
    match copy_outcome(7, Ok(Some(sample_entry(&long)))) {
        CopyOutcome::Copy { content, message } => {
            assert_eq!(content, long);
            assert_eq!(message, format!("Copied to clipboard: {}\u{2026}", "x".repeat(60)));
        }
        CopyOutcome::Fail { .. } => panic!("a found entry is copied"),
    }
}

#[test]
fn copy_outcome_reports_missing_entries_and_errors() {
    match copy_outcome(-42, Ok(None)) {
        CopyOutcome::Fail { message } => assert_eq!(message, "Entry -42 not found."),
        CopyOutcome::Copy { .. } => panic!("nothing to copy"),
    }
    match copy_outcome(3, Err(StoreError::Sqlite("database is locked".to_string()))) {
        CopyOutcome::Fail { message } => assert_eq!(message, "Error: database is locked"),
        CopyOutcome::Copy { .. } => panic!("nothing to copy"),
    }
    match copy_outcome(3, Err(StoreError::NoRows)) {
        CopyOutcome::Fail { message } => assert_eq!(message, "Error: Query returned no rows"),
        CopyOutcome::Copy { .. } => panic!("nothing to copy"),
    }
}
