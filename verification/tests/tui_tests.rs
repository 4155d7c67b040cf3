use fuzzy_matcher::skim::SkimMatcherV2;
use fuzzy_matcher::FuzzyMatcher;
use rippy::db::Store;
use rippy::filter::rank_matches;
use rippy::tui::{filter_entries, preview, App, BorderColor, KeyCode, KeyPress, Mode, Pending};

fn key(c: char) -> KeyPress {
    KeyPress { code: KeyCode::Char(c), ctrl: false }
}

fn ctrl(c: char) -> KeyPress {
    KeyPress { code: KeyCode::Char(c), ctrl: true }
}

fn special(code: KeyCode) -> KeyPress {
    KeyPress { code, ctrl: false }
}

/// An app over a fresh in-memory store holding `clips`, inserted in order.
fn app_with(clips: &[&str]) -> App {
    let mut store = Store::open(":memory:").unwrap();
    for c in clips {
        store.insert(c, None).unwrap();
    }
    App::new(store)
}

#[test]
fn rank_matches_orders_by_score_then_position() {
    let scores = vec![Some(5), None, Some(7), Some(5), Some(-1)];
    assert_eq!(rank_matches(&scores), vec![2, 0, 3, 4]);
    assert_eq!(rank_matches(&[]), Vec::<usize>::new());
    assert_eq!(rank_matches(&[None, None]), Vec::<usize>::new());
}

#[test]
fn empty_query_shows_everything_in_order() {
    let app = app_with(&["a", "b", "c"]);
    assert_eq!(app.filtered, vec![0, 1, 2]);
    assert_eq!(filter_entries(&app.entries, ""), vec![0, 1, 2]);
}

#[test]
fn filter_ranks_by_skim_score() {
    let app = app_with(&["apple pie", "banana", "grape", "map of places"]);
    let matcher = SkimMatcherV2::default();
    let mut expected: Vec<(usize, i64)> = app
        .entries
        .iter()
        .enumerate()
        .filter_map(|(i, e)| matcher.fuzzy_match(&e.content, "ap").map(|s| (i, s)))
        .collect();
    expected.sort_by(|a, b| b.1.cmp(&a.1));
    let expected: Vec<usize> = expected.into_iter().map(|(i, _)| i).collect();
    let got = filter_entries(&app.entries, "ap");
    assert_eq!(got, expected);
    assert!(!got.iter().any(|&i| app.entries[i].content == "banana"));
}

#[test]
fn starts_in_normal_mode() {
    let app = app_with(&["x"]);
    assert!(matches!(app.mode, Mode::Normal));
    assert!(matches!(app.pending, Pending::Nothing));
    assert_eq!(app.selected, 0);
    assert!(!app.should_quit);
    assert_eq!(app.title(), " rippy [NORMAL] ");
    assert_eq!(app.search_text(), " Type to search\u{2026}");
}

#[test]
fn j_and_k_move_within_the_list() {
    let mut app = app_with(&["a", "b", "c"]);
    app.handle_key(key('k'));
    assert_eq!(app.selected, 0);
    app.handle_key(key('j'));
    app.handle_key(special(KeyCode::Down));
    assert_eq!(app.selected, 2);
    app.handle_key(key('j'));
    assert_eq!(app.selected, 2);
    app.handle_key(special(KeyCode::Up));
    assert_eq!(app.selected, 1);
}

#[test]
fn big_g_and_gg_jump() {
    let mut app = app_with(&["a", "b", "c", "d"]);
    app.handle_key(key('G'));
    assert_eq!(app.selected, 3);
    app.handle_key(key('g'));
    assert!(matches!(app.pending, Pending::G));
    assert_eq!(app.selected, 3);
    app.handle_key(key('g'));
    assert_eq!(app.selected, 0);
    assert!(matches!(app.pending, Pending::Nothing));
}

#[test]
fn a_single_g_followed_by_another_key_is_dropped() {
    let mut app = app_with(&["a", "b", "c"]);
    app.handle_key(key('g'));
    app.handle_key(key('j'));
    assert_eq!(app.selected, 1);
    assert!(matches!(app.pending, Pending::Nothing));
}

#[test]
fn half_page_moves() {
    let clips: Vec<String> = (0..30).map(|i| format!("clip {i}")).collect();
    let refs: Vec<&str> = clips.iter().map(|s| s.as_str()).collect();
    let mut app = app_with(&refs);
    app.set_list_height(10);
    app.handle_key(ctrl('d'));
    assert_eq!(app.selected, 5);
    app.handle_key(ctrl('d'));
    app.handle_key(ctrl('d'));
    app.handle_key(ctrl('d'));
    app.handle_key(ctrl('d'));
    assert_eq!(app.selected, 25);
    app.handle_key(ctrl('d'));
    assert_eq!(app.selected, 29);
    app.handle_key(ctrl('u'));
    assert_eq!(app.selected, 24);
    app.set_list_height(1);
    app.handle_key(ctrl('u'));
    assert_eq!(app.selected, 23);
    app.set_list_height(100);
    app.handle_key(ctrl('u'));
    assert_eq!(app.selected, 0);
}

#[test]
fn search_mode_filters_and_backspace_restores() {
    let mut app = app_with(&["alpha", "beta", "gamma"]);
    app.handle_key(key('/'));
    assert!(matches!(app.mode, Mode::Insert));
    assert_eq!(app.title(), " rippy [INSERT] ");
    let before = app.filtered.clone();
    app.handle_key(key('b'));
    assert_eq!(app.query, "b");
    assert_eq!(app.search_text(), " b");
    assert_eq!(app.filtered, filter_entries(&app.entries, "b"));
    app.handle_key(special(KeyCode::Backspace));
    assert_eq!(app.query, "");
    assert_eq!(app.filtered, before);
    assert!(matches!(app.mode, Mode::Insert));
    // typing j or q in insert mode searches instead of moving or quitting
    app.handle_key(key('q'));
    assert_eq!(app.query, "q");
    assert!(!app.should_quit);
}

#[test]
fn ctrl_u_clears_the_search_and_esc_returns_to_normal() {
    let mut app = app_with(&["alpha", "beta"]);
    app.handle_key(key('i'));
    app.handle_key(key('a'));
    app.handle_key(key('l'));
    assert_eq!(app.query, "al");
    app.handle_key(ctrl('u'));
    assert_eq!(app.query, "");
    assert_eq!(app.filtered, vec![0, 1]);
    app.handle_key(key('b'));
    app.handle_key(special(KeyCode::Esc));
    assert!(matches!(app.mode, Mode::Normal));
    assert_eq!(app.query, "b");
    assert!(!app.should_quit);
}

#[test]
fn backspace_on_empty_search_keeps_it_empty() {
    let mut app = app_with(&["a"]);
    app.handle_key(key('/'));
    app.handle_key(special(KeyCode::Backspace));
    assert_eq!(app.query, "");
    assert_eq!(app.filtered, vec![0]);
}

#[test]
fn enter_copies_and_quits() {
    let mut app = app_with(&["older", "newer"]);
    let expected = app.entries[app.filtered[1]].content.clone();
    let id = app.entries[app.filtered[1]].id;
    app.handle_key(key('j'));
    let copied = app.handle_key(special(KeyCode::Enter));
    assert_eq!(copied, Some(expected));
    assert_eq!(app.copied_id, Some(id));
    assert!(app.should_quit);
    assert_eq!(app.status_text(), " Copied! ");
}

#[test]
fn enter_on_empty_list_quits_without_copy() {
    let mut app = app_with(&[]);
    assert_eq!(app.handle_key(special(KeyCode::Enter)), None);
    assert!(app.should_quit);
    assert_eq!(app.copied_id, None);
}

#[test]
fn copied_marker_clears_on_next_key() {
    let mut app = app_with(&["a", "b"]);
    app.copy_selected();
    assert!(app.copied_id.is_some());
    app.handle_key(key('j'));
    assert_eq!(app.copied_id, None);
}

#[test]
fn dd_deletes_the_selected_entry() {
    let mut app = app_with(&["keep", "drop", "also keep"]);
    app.handle_key(key('j'));
    let gone = app.entries[app.filtered[app.selected]].content.clone();
    app.handle_key(key('d'));
    assert_eq!(app.entries.len(), 3);
    app.handle_key(key('d'));
    assert_eq!(app.entries.len(), 2);
    assert!(!app.entries.iter().any(|e| e.content == gone));
    assert_eq!(app.selected, 0);
    assert!(app.store.all().unwrap().iter().all(|e| e.content != gone));
}

#[test]
fn quit_keys() {
    let mut app = app_with(&["a"]);
    app.handle_key(key('q'));
    assert!(app.should_quit);
    let mut app = app_with(&["a"]);
    app.handle_key(special(KeyCode::Esc));
    assert!(app.should_quit);
    let mut app = app_with(&["a"]);
    app.handle_key(key('/'));
    app.handle_key(ctrl('c'));
    assert!(app.should_quit);
}

#[test]
fn status_line_counts_shown_entries() {
    let mut app = app_with(&["alpha", "beta", "gamma"]);
    assert_eq!(
        app.status_text(),
        " 3/3 \u{2502} j/k navigate \u{2502} Enter copy \u{2502} dd delete \u{2502} / search \u{2502} q quit"
    );
    app.handle_key(key('/'));
    app.handle_key(key('z'));
    assert_eq!(
        app.status_text(),
        format!(" {}/3 \u{2502} \u{2191}\u{2193} navigate \u{2502} Enter copy \u{2502} Esc normal mode", app.filtered.len())
    );
}

#[test]
fn scrolling_keeps_the_selection_visible() {
    let clips: Vec<String> = (0..20).map(|i| format!("clip {i}")).collect();
    let refs: Vec<&str> = clips.iter().map(|s| s.as_str()).collect();
    let mut app = app_with(&refs);
    for _ in 0..12 {
        app.handle_key(key('j'));
    }
    app.scroll_into_view(5);
    assert_eq!(app.scroll_offset, 8);
    assert_eq!(app.visible_rows(5), (8, 13));
    app.handle_key(key('g'));
    app.handle_key(key('g'));
    app.scroll_into_view(5);
    assert_eq!(app.scroll_offset, 0);
    assert_eq!(app.visible_rows(50), (0, 20));
}

#[test]
fn preview_is_first_line_up_to_200_chars() {
    assert_eq!(preview("one\ntwo"), "one");
    assert_eq!(preview(""), "");
    let long = "y".repeat(250);
    assert_eq!(preview(&long), "y".repeat(200));
    assert_eq!(preview("\u{e9}x\r\nz"), "\u{e9}x");
}

#[test]
fn ctrl_d_moves_without_deleting() {
    let mut app = app_with(&["one", "two", "three"]);
    app.handle_key(ctrl('d'));
    app.handle_key(special(KeyCode::Esc));
    assert_eq!(app.entries.len(), 3);
    assert_eq!(app.store.all().unwrap().len(), 3);
}

#[test]
fn scrolling_back_up_after_a_jump_shows_the_selection() {
    let clips: Vec<String> = (0..30).map(|i| format!("clip {i}")).collect();
    let refs: Vec<&str> = clips.iter().map(|s| s.as_str()).collect();
    let mut app = app_with(&refs);
    app.set_list_height(10);
    app.handle_key(key('G'));
    app.scroll_into_view(10);
    assert_eq!(app.scroll_offset, 20);
    app.handle_key(ctrl('u'));
    assert_eq!(app.selected, 24);
    app.scroll_into_view(10);
    assert_eq!(app.scroll_offset, 20);
    app.handle_key(key('g'));
    app.handle_key(key('g'));
    assert_eq!(app.selected, 0);
    assert_eq!(app.scroll_offset, 20);
    app.scroll_into_view(10);
    assert_eq!(app.scroll_offset, 0);
}

#[test]
fn border_colour_follows_the_mode() {
    let mut app = app_with(&["a"]);
    assert_eq!(app.border_color(), BorderColor::Cyan);
    app.handle_key(key('i'));
    assert_eq!(app.border_color(), BorderColor::Green);
    app.handle_key(special(KeyCode::Esc));
    assert_eq!(app.border_color(), BorderColor::Cyan);
}

#[test]
fn scrolling_works_at_the_largest_selection() {
    let mut app = app_with(&["a"]);
    app.selected = usize::MAX;
    app.scroll_offset = 0;
    app.scroll_into_view(3);
    assert_eq!(app.scroll_offset, usize::MAX - 2);
}
