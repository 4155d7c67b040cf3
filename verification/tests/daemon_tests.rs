use rippy::clipboard::clipboard_reading;
use rippy::daemon::{daemon_state, pid_file_contents, read_pid, status_message, stop_message, DaemonState};
use rippy::watcher::{should_store, ClipboardWatch, MAX_ENTRY_SIZE};

fn some(s: &str) -> Option<String> {
    Some(s.to_string())
}

#[test]
fn read_pid_parses_trimmed_decimal() {
    assert_eq!(read_pid(some("1234")), Some(1234));
    assert_eq!(read_pid(some("  42\n")), Some(42));
    assert_eq!(read_pid(some("\t+7 ")), Some(7));
    assert_eq!(read_pid(some("0")), Some(0));
    assert_eq!(read_pid(some("4294967295")), Some(u32::MAX));
}

#[test]
fn read_pid_rejects_what_u32_parse_rejects() {
    assert_eq!(read_pid(None), None);
    assert_eq!(read_pid(some("")), None);
    assert_eq!(read_pid(some("   ")), None);
    assert_eq!(read_pid(some("-1")), None);
    assert_eq!(read_pid(some("+")), None);
    assert_eq!(read_pid(some("12a")), None);
    assert_eq!(read_pid(some("1 2")), None);
    assert_eq!(read_pid(some("4294967296")), None);
    assert_eq!(read_pid(some("99999999999999999999999")), None);
}

#[test]
fn read_pid_agrees_with_std_parse() {
    for s in ["7", " 7", "+0", "00012", "-0", "4294967295", "4294967296", "1e3", "\u{a0}5\u{2003}", "\u{200b}5"] {
        assert_eq!(read_pid(some(s)), s.trim().parse::<u32>().ok(), "input {:?}", s);
    }
}

#[test]
fn pid_file_roundtrip() {
    for pid in [0u32, 1, 9, 10, 4711, u32::MAX] {
        assert_eq!(pid_file_contents(pid), pid.to_string());
        assert_eq!(read_pid(Some(pid_file_contents(pid))), Some(pid));
    }
}

#[test]
fn daemon_states_and_messages() {
    let running = daemon_state(Some(77), true);
    assert!(matches!(running, DaemonState::Running(77)));
    assert_eq!(status_message(&running), "Daemon is running (PID 77)");
    assert_eq!(stop_message(&running), "Sent stop signal to daemon (PID 77)");
    let stale = daemon_state(Some(77), false);
    assert!(matches!(stale, DaemonState::Stale(77)));
    assert_eq!(status_message(&stale), "Daemon is not running (stale PID file)");
    assert_eq!(stop_message(&stale), "Daemon is not running (cleaning stale PID file)");
    let none = daemon_state(None, true);
    assert!(matches!(none, DaemonState::NotRunning));
    assert_eq!(status_message(&none), "Daemon is not running");
    assert_eq!(stop_message(&none), "Daemon is not running");
}

#[test]
fn clipboard_reading_filters_empty_text_and_parses_count() {
    let (text, count) = clipboard_reading(some("hello"), some("17\n"));
    assert_eq!(text, some("hello"));
    assert_eq!(count, 17);
    let (text, count) = clipboard_reading(some(""), some(" -5 "));
    assert_eq!(text, None);
    assert_eq!(count, -5);
    let (text, count) = clipboard_reading(None, some("not a number"));
    assert_eq!(text, None);
    assert_eq!(count, 0);
    let (text, count) = clipboard_reading(some(" "), None);
    assert_eq!(text, some(" "));
    assert_eq!(count, 0);
}

#[test]
fn clipboard_change_count_agrees_with_std_parse() {
    for s in ["0", "-9223372036854775808", "9223372036854775807", "9223372036854775808", "-", "+12", " 3\n", "--1"] {
        let (_, count) = clipboard_reading(None, some(s));
        assert_eq!(count, s.trim().parse::<i64>().unwrap_or(0), "input {:?}", s);
    }
}

#[test]
fn should_store_limits_size_in_bytes() {
    assert!(!should_store(&None));
    assert!(should_store(&some("")));
    assert!(should_store(&Some("a".repeat(MAX_ENTRY_SIZE))));
    assert!(!should_store(&Some("a".repeat(MAX_ENTRY_SIZE + 1))));
    // 500_001 two-byte characters are 1_000_002 bytes
    assert!(!should_store(&Some("\u{e9}".repeat(500_001))));
    assert!(should_store(&Some("\u{e9}".repeat(500_000))));
}

#[test]
fn watch_records_each_change_once() {
    let mut w = ClipboardWatch::new();
    assert_eq!(w.last_change_count, -1);
    assert_eq!(w.observe(some("one"), 5), some("one"));
    assert_eq!(w.observe(some("one"), 5), None);
    assert_eq!(w.observe(some("two"), 5), None);
    assert_eq!(w.observe(some("two"), 6), some("two"));
    assert_eq!(w.observe(None, 7), None);
    assert_eq!(w.last_change_count, 7);
    assert_eq!(w.observe(Some("x".repeat(MAX_ENTRY_SIZE + 1)), 8), None);
    assert_eq!(w.observe(some("back"), 5), some("back"));
}

#[test]
fn watch_first_look_counts_as_change() {
    let mut w = ClipboardWatch::new();
    assert_eq!(w.observe(some("start"), 0), some("start"));
    let mut w2 = ClipboardWatch::new();
    assert_eq!(w2.observe(some("start"), -1), None);
}
