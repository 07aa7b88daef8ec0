use repo_finder::finder::{FuzzyFinder, KeyInput, KeyOutcome};
use repo_finder::matcher::{filter_items, is_match};
use repo_finder::render::{display_query, truncate_item, Notice};

fn strings(v: &[&str]) -> Vec<String> {
    v.iter().map(|s| s.to_string()).collect()
}

fn type_query(f: &mut FuzzyFinder, q: &str) {
    for c in q.chars() {
        assert_eq!(f.handle_key(KeyInput::Char(c)), KeyOutcome::Continue);
    }
}

#[test]
fn empty_query_shows_everything() {
    let f = FuzzyFinder::new(strings(&["alpha", "alphabet", "beta"]));
    assert_eq!(f.filtered_items(), &strings(&["alpha", "alphabet", "beta"]));
    assert_eq!(f.selected_index(), 0);
    assert_eq!(f.count_text(), "3/3");
    assert_eq!(f.page_size(), 10);
}

#[test]
fn query_narrows_in_order_and_clamps_selection() {
    let mut f = FuzzyFinder::new(strings(&["alpha", "alphabet", "beta"]));
    f.move_cursor_down();
    f.move_cursor_down();
    assert_eq!(f.current_selection(), Some("beta".to_string()));
    type_query(&mut f, "alp");
    assert_eq!(f.filtered_items(), &strings(&["alpha", "alphabet"]));
    assert_eq!(f.selected_index(), 1);
    assert_eq!(f.count_text(), "2/3");
}

#[test]
fn moving_down_twelve_times_scrolls_by_three() {
    let items: Vec<String> = (0..20).map(|i| format!("item{}", i)).collect();
    let mut f = FuzzyFinder::new(items);
    for _ in 0..12 {
        f.move_cursor_down();
    }
    assert_eq!(f.selected_index(), 12);
    assert_eq!(f.scroll_offset(), 3);
    for _ in 0..12 {
        f.move_cursor_up();
    }
    assert_eq!(f.selected_index(), 0);
    assert_eq!(f.scroll_offset(), 0);
}

#[test]
fn selection_stops_at_both_ends() {
    let mut f = FuzzyFinder::new(strings(&["a", "b"]));
    f.move_cursor_up();
    assert_eq!(f.selected_index(), 0);
    f.move_cursor_down();
    f.move_cursor_down();
    assert_eq!(f.selected_index(), 1);
}

#[test]
fn confirm_on_empty_view_is_ignored() {
    let mut f = FuzzyFinder::new(strings(&["alpha", "beta"]));
    type_query(&mut f, "zz");
    assert!(f.filtered_items().is_empty());
    assert_eq!(f.handle_key(KeyInput::Enter), KeyOutcome::Continue);
    assert_eq!(f.query(), &vec!['z', 'z']);
    assert_eq!(f.current_selection(), None);
}

#[test]
fn confirm_yields_selected_line() {
    let mut f = FuzzyFinder::new(strings(&["alpha", "beta"]));
    f.handle_key(KeyInput::Down);
    assert_eq!(f.handle_key(KeyInput::Enter), KeyOutcome::Selected("beta".to_string()));
}

#[test]
fn cancel_ends_without_result() {
    let mut f = FuzzyFinder::new(strings(&["alpha"]));
    assert_eq!(f.handle_key(KeyInput::Cancel), KeyOutcome::Cancelled);
}

#[test]
fn set_items_twice_keeps_selection_and_scroll() {
    let items: Vec<String> = (0..30).map(|i| format!("x{}", i)).collect();
    let mut f = FuzzyFinder::new(items.clone());
    for _ in 0..15 {
        f.move_cursor_down();
    }
    f.update_items(items.clone());
    assert_eq!(f.selected_index(), 15);
    assert_eq!(f.scroll_offset(), 6);
    f.update_items(strings(&["x0", "x1", "x2"]));
    assert_eq!(f.selected_index(), 2);
    assert_eq!(f.scroll_offset(), 2);
    f.update_items(Vec::new());
    assert_eq!(f.selected_index(), 0);
    assert_eq!(f.scroll_offset(), 0);
    assert_eq!(f.count_text(), "0/0");
}

#[test]
fn editing_keeps_cursor_in_bounds() {
    let mut f = FuzzyFinder::new(strings(&["abc"]));
    f.handle_key(KeyInput::Backspace);
    f.handle_key(KeyInput::Delete);
    f.handle_key(KeyInput::Left);
    assert_eq!(f.cursor_pos(), 0);
    type_query(&mut f, "ac");
    assert_eq!(f.cursor_pos(), 2);
    f.handle_key(KeyInput::Right);
    assert_eq!(f.cursor_pos(), 2);
    f.handle_key(KeyInput::Left);
    f.handle_key(KeyInput::Char('b'));
    assert_eq!(f.query(), &vec!['a', 'b', 'c']);
    assert_eq!(f.cursor_pos(), 2);
    f.handle_key(KeyInput::Delete);
    assert_eq!(f.query(), &vec!['a', 'b']);
    assert_eq!(f.cursor_pos(), 2);
    f.handle_key(KeyInput::Home);
    assert_eq!(f.cursor_pos(), 0);
    f.handle_key(KeyInput::Backspace);
    assert_eq!(f.query(), &vec!['a', 'b']);
    f.handle_key(KeyInput::End);
    assert_eq!(f.cursor_pos(), 2);
    f.handle_key(KeyInput::Backspace);
    assert_eq!(f.query(), &vec!['a']);
    assert_eq!(f.cursor_pos(), 1);
}

#[test]
fn messages_error_before_status() {
    let mut f = FuzzyFinder::new(strings(&["a"]));
    assert!(f.notice().is_none());
    f.set_status_message(Some("loading".to_string()));
    assert!(matches!(f.notice(), Some(Notice::Status(s)) if s == "loading"));
    f.set_error_message(Some("boom".to_string()));
    assert!(matches!(f.notice(), Some(Notice::Error(s)) if s == "boom"));
    f.set_error_message(None);
    assert!(matches!(f.notice(), Some(Notice::Status(s)) if s == "loading"));
    assert_eq!(f.selected_index(), 0);
}

#[test]
fn matcher_is_ordered_and_case_blind() {
    assert!(is_match(&vec!['a', 'l', 'p'], "alphabet"));
    assert!(is_match(&vec!['A', 'B'], "xaxb"));
    assert!(!is_match(&vec!['b', 'a', 'x'], "alphabet"));
    assert!(is_match(&vec![], ""));
    assert!(!is_match(&vec!['a'], ""));
    let items = strings(&["GitHub", "gitlab", "other"]);
    assert_eq!(filter_items(&items, &vec!['g', 'h']), strings(&["GitHub"]));
    assert_eq!(filter_items(&items, &vec!['g']), strings(&["GitHub", "gitlab"]));
}

#[test]
fn long_items_are_cut_by_characters() {
    assert_eq!(truncate_item("abcdef", 4), "abc…");
    assert_eq!(truncate_item("abcd", 4), "abcd");
    assert_eq!(truncate_item("🔒🔒🔒🔒🔒", 3), "🔒🔒…");
    assert_eq!(truncate_item("ab", 0), "");
    let t = truncate_item("repository-name", 8);
    assert_eq!(t.chars().count(), 8);
    assert!("repository-name".starts_with(t.trim_end_matches('…')));
}

#[test]
fn long_query_shows_its_tail() {
    let q: Vec<char> = "abcdefgh".chars().collect();
    assert_eq!(display_query(&q, 4), "…fgh");
    assert_eq!(display_query(&q, 8), "abcdefgh");
    assert_eq!(display_query(&q, 0), "");
}

#[test]
fn frame_lists_visible_rows() {
    let items: Vec<String> = (0..20).map(|i| format!("entry-number-{}", i)).collect();
    let mut f = FuzzyFinder::new(items);
    for _ in 0..12 {
        f.move_cursor_down();
    }
    let frame = f.render_frame(17, 15);
    assert_eq!(frame.rows.len(), 10);
    assert_eq!(frame.blank_rows, 0);
    assert_eq!(frame.rows[0].text, "entry-num…");
    assert!(frame.rows.iter().filter(|r| r.selected).count() == 1);
    assert!(frame.rows[9].selected);
    assert_eq!(frame.count_text, "20/20");
    assert_eq!(frame.fill, 11);
    assert_eq!(frame.status_row, 11);
    assert_eq!(frame.prompt_row, 15);
    assert_eq!(frame.cursor_col, 3);
    let small = FuzzyFinder::new(strings(&["a"])).render_frame(40, 4);
    assert_eq!(small.rows.len(), 0);
    assert_eq!(small.status_row, 1);
    let mut roomy_finder = FuzzyFinder::new(strings(&["a", "b"]));
    roomy_finder.set_page_size(7);
    let roomy = roomy_finder.render_frame(40, 12);
    assert_eq!(roomy.rows.len(), 2);
    assert_eq!(roomy.blank_rows, 5);
    assert!(roomy.rows[0].selected);
}

#[test]
fn smaller_page_scrolls_to_keep_selection() {
    let items: Vec<String> = (0..20).map(|i| format!("i{}", i)).collect();
    let mut f = FuzzyFinder::new(items);
    for _ in 0..8 {
        f.move_cursor_down();
    }
    assert_eq!(f.scroll_offset(), 0);
    f.set_page_size(5);
    assert_eq!(f.page_size(), 5);
    assert_eq!(f.scroll_offset(), 4);
    f.set_page_size(0);
    assert_eq!(f.page_size(), 1);
    assert_eq!(f.scroll_offset(), 8);
    let frame = f.render_frame(40, 6);
    assert_eq!(frame.rows.len(), 1);
    assert!(frame.rows[0].selected);
    assert_eq!(frame.rows[0].text, "i8");
}

#[test]
fn selected_row_is_listed_when_page_follows_height() {
    let items: Vec<String> = (0..30).map(|i| format!("row{}", i)).collect();
    let mut f = FuzzyFinder::new(items);
    for _ in 0..9 {
        f.move_cursor_down();
    }
    f.set_page_size(3);
    let frame = f.render_frame(40, 8);
    assert_eq!(frame.rows.len(), 3);
    assert_eq!(frame.rows.iter().filter(|r| r.selected).count(), 1);
    assert!(frame.rows[2].selected);
    assert_eq!(frame.rows[2].text, "row9");
}

#[test]
fn update_filter_keeps_view_fresh() {
    let mut f = FuzzyFinder::new(strings(&["alpha", "beta"]));
    f.handle_key(KeyInput::Down);
    f.update_filter();
    assert_eq!(f.filtered_items(), &strings(&["alpha", "beta"]));
    assert_eq!(f.selected_index(), 1);
}
