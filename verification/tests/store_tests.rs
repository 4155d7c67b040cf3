use rippy::db::{
    clear_outcome, content_hash, delete_outcome, insert_outcome, insert_plan, optional, timestamp_of,
    ClipEntry, InsertPlan, Store, StoreError,
};
use std::time::{Duration, Instant};

/// Waits until the clock's second has surely changed (timestamps are in whole seconds).
fn wait_a_second() {
    let start = Instant::now();
    while start.elapsed() < Duration::from_millis(1100) {}
}

fn memory_store() -> Store {
    Store::open(":memory:").expect("in-memory database")
}

#[test]
fn content_hash_is_sha256_in_lower_hex() {
    assert_eq!(content_hash(""), "e3b0c44298fc1c149afbf4c8996fb92427ae41e4649b934ca495991b7852b855");
    assert_eq!(content_hash("hello"), "2cf24dba5fb0a30e26e83b2ac5b9e29e1b161e5c1fa7425e73043362938b9824");
    assert_eq!(content_hash("hello").len(), 64);
    assert_ne!(content_hash("hello"), content_hash("hello "));
}

#[test]
fn optional_maps_missing_rows_to_none() {
    assert!(matches!(optional::<i32>(Ok(3)), Ok(Some(3))));
    assert!(matches!(optional::<i32>(Err(StoreError::NoRows)), Ok(None)));
    match optional::<i32>(Err(StoreError::Sqlite("boom".to_string()))) {
        Err(StoreError::Sqlite(m)) => assert_eq!(m, "boom"),
        _ => panic!("other errors pass through"),
    }
}

#[test]
fn open_fails_for_a_missing_directory() {
    match Store::open("/nonexistent-dir-for-rippy-tests/sub/history.db") {
        Err(StoreError::Sqlite(msg)) => assert!(!msg.is_empty()),
        Err(StoreError::NoRows) => panic!("unexpected NoRows"),
        Ok(_) => panic!("opening a file in a missing directory should fail"),
    }
}

#[test]
fn insert_then_get() {
    let mut store = memory_store();
    let id = store.insert("first clip", Some("Terminal")).unwrap();
    let e: ClipEntry = store.get(id).unwrap().expect("inserted entry");
    assert_eq!(e.id, id);
    assert_eq!(e.content, "first clip");
    assert_eq!(e.hash, content_hash("first clip"));
    assert_eq!(e.app_name.as_deref(), Some("Terminal"));
    assert!(e.timestamp > 0);
}

#[test]
fn get_missing_is_none() {
    let mut store = memory_store();
    assert!(store.get(12345).unwrap().is_none());
}

#[test]
fn inserting_the_same_content_keeps_one_entry() {
    let mut store = memory_store();
    let a = store.insert("same", None).unwrap();
    let b = store.insert("other", None).unwrap();
    assert_ne!(a, b);
    let again = store.insert("same", Some("ignored")).unwrap();
    assert_eq!(again, a);
    let all = store.all().unwrap();
    assert_eq!(all.len(), 2);
    // the first insert's app name is kept
    assert_eq!(store.get(a).unwrap().unwrap().app_name, None);
}

#[test]
fn recent_respects_limit() {
    let mut store = memory_store();
    for i in 0..5 {
        store.insert(&format!("clip {i}"), None).unwrap();
    }
    assert_eq!(store.recent(3).unwrap().len(), 3);
    assert_eq!(store.recent(10).unwrap().len(), 5);
    assert_eq!(store.recent(0).unwrap().len(), 0);
}

#[test]
fn search_matches_fuzzily() {
    let mut store = memory_store();
    store.insert("git commit -m fix", None).unwrap();
    store.insert("cargo build", None).unwrap();
    store.insert("GIT push", None).unwrap();
    let found = store.search("git", 20).unwrap();
    let mut contents: Vec<String> = found.into_iter().map(|e| e.content).collect();
    contents.sort();
    // a lower-case query matches letters of either case
    assert_eq!(contents, vec!["GIT push".to_string(), "git commit -m fix".to_string()]);
    assert_eq!(store.search("build", 20).unwrap().len(), 1);
    assert_eq!(store.search("nothing", 20).unwrap().len(), 0);
    assert_eq!(store.search("", 2).unwrap().len(), 2);
}

#[test]
fn search_finds_a_subsequence() {
    let mut store = memory_store();
    assert_eq!(store.insert("hello world", None).unwrap(), 1);
    let found = store.search("hlo", 20).unwrap();
    assert_eq!(found.len(), 1);
    assert_eq!(found[0].content, "hello world");
    assert!(store.search("hlx", 20).unwrap().is_empty());
}

#[test]
fn store_error_messages() {
    assert_eq!(StoreError::NoRows.message(), "Query returned no rows");
    assert_eq!(StoreError::Sqlite("disk I/O error".to_string()).message(), "disk I/O error");
}

#[test]
fn delete_reports_whether_something_was_deleted() {
    let mut store = memory_store();
    let id = store.insert("to delete", None).unwrap();
    assert!(store.delete(id).unwrap());
    assert!(!store.delete(id).unwrap());
    assert!(store.get(id).unwrap().is_none());
}

#[test]
fn clear_counts_and_empties() {
    let mut store = memory_store();
    assert_eq!(store.clear().unwrap(), 0);
    store.insert("a", None).unwrap();
    store.insert("b", None).unwrap();
    store.insert("a", None).unwrap();
    assert_eq!(store.clear().unwrap(), 2);
    assert!(store.all().unwrap().is_empty());
}

#[test]
fn reinserting_moves_an_entry_to_the_top() {
    let mut store = memory_store();
    let a = store.insert("alpha", None).unwrap();
    wait_a_second();
    let b = store.insert("beta", None).unwrap();
    let order: Vec<i64> = store.recent(10).unwrap().iter().map(|e| e.id).collect();
    assert_eq!(order, vec![b, a]);
    wait_a_second();
    assert_eq!(store.insert("alpha", None).unwrap(), a);
    let order: Vec<i64> = store.recent(10).unwrap().iter().map(|e| e.id).collect();
    assert_eq!(order, vec![a, b]);
    assert_eq!(store.recent(1).unwrap()[0].content, "alpha");
}

#[test]
fn insert_plan_and_outcome() {
    let plan = insert_plan(Ok(17));
    assert!(matches!(plan, InsertPlan::MoveToTop(17)));
    assert!(matches!(insert_outcome(&plan, Ok(1), 99), Ok(17)));
    let plan = insert_plan(Err(StoreError::NoRows));
    assert!(matches!(plan, InsertPlan::Add));
    assert!(matches!(insert_outcome(&plan, Ok(1), 99), Ok(99)));
    assert!(matches!(insert_outcome(&plan, Err(StoreError::Sqlite("full".into())), 99), Err(StoreError::Sqlite(_))));
}

#[test]
fn delete_and_clear_outcomes() {
    assert!(matches!(delete_outcome(Ok(1)), Ok(true)));
    assert!(matches!(delete_outcome(Ok(0)), Ok(false)));
    assert!(matches!(delete_outcome(Err(StoreError::NoRows)), Err(StoreError::NoRows)));
    assert!(matches!(clear_outcome(5, Ok(5)), Ok(5)));
    assert!(matches!(clear_outcome(5, Err(StoreError::Sqlite("locked".into()))), Err(StoreError::Sqlite(_))));
}

#[test]
fn insert_stamps_the_current_time() {
    let mut store = memory_store();
    let before = std::time::SystemTime::now().duration_since(std::time::UNIX_EPOCH).unwrap().as_secs() as i64;
    let id = store.insert("stamped", None).unwrap();
    let after = std::time::SystemTime::now().duration_since(std::time::UNIX_EPOCH).unwrap().as_secs() as i64;
    let e = store.get(id).unwrap().unwrap();
    assert!(before <= e.timestamp && e.timestamp <= after);
}

#[test]
fn reinserting_changes_only_the_timestamp() {
    let mut store = memory_store();
    let id = store.insert("kept", Some("Editor")).unwrap();
    let first = store.get(id).unwrap().unwrap();
    wait_a_second();
    assert_eq!(store.insert("kept", Some("Other")).unwrap(), id);
    let second = store.get(id).unwrap().unwrap();
    assert_eq!(second.content, first.content);
    assert_eq!(second.hash, first.hash);
    assert_eq!(second.app_name.as_deref(), Some("Editor"));
    assert!(second.timestamp > first.timestamp);
    assert_eq!(store.all().unwrap().len(), 1);
}

#[test]
fn insert_at_stamps_the_given_time_and_moves_to_the_top() {
    let mut store = memory_store();
    let a = store.insert_at("alpha", None, 1_000).unwrap();
    let b = store.insert_at("beta", Some("Mail"), 2_000).unwrap();
    assert_eq!(store.get(b).unwrap().unwrap().timestamp, 2_000);
    assert_eq!(store.insert_at("alpha", Some("ignored"), 3_000).unwrap(), a);
    let e = store.get(a).unwrap().unwrap();
    assert_eq!(e.timestamp, 3_000);
    assert_eq!(e.app_name, None);
    let order: Vec<i64> = store.recent(10).unwrap().iter().map(|e| e.id).collect();
    assert_eq!(order, vec![a, b]);
}

#[test]
fn timestamps_round_down() {
    assert_eq!(timestamp_of(false, 1_700_000_000, 999_999_999), 1_700_000_000);
    assert_eq!(timestamp_of(false, 0, 0), 0);
    assert_eq!(timestamp_of(true, 0, 500_000_000), -1);
    assert_eq!(timestamp_of(true, 2, 0), -2);
    assert_eq!(timestamp_of(true, 2, 1), -3);
    assert_eq!(timestamp_of(false, u64::MAX, 0), i64::MAX);
    assert_eq!(timestamp_of(true, u64::MAX, 0), i64::MIN);
}

#[test]
fn search_looks_at_every_entry() {
    let mut store = memory_store();
    for i in 0..30 {
        store.insert_at(&format!("entry {i}"), None, i).unwrap();
    }
    store.insert_at("needle", None, -5).unwrap();
    let found = store.search("needle", 20).unwrap();
    assert_eq!(found.len(), 1);
    assert_eq!(found[0].timestamp, -5);
    assert_eq!(store.search("entry", 4).unwrap().len(), 4);
}
