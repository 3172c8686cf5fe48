use clipboard_manager::entry::{ClipboardContent, ClipboardEntry};
use clipboard_manager::history::ClipboardHistory;
use clipboard_manager::navigation::{KeyOutcome, KeyPress, NavigationDirection, NavigationModel};
use clipboard_manager::style_service::{StyleService, CURRENT_CLIPBOARD_CLASS};
use clipboard_manager::text::title;

fn history(items: &[&str]) -> ClipboardHistory {
    let mut h = ClipboardHistory::new();
    let batch = items
        .iter()
        .map(|s| ClipboardEntry::with_timestamp(ClipboardContent::Text(s.to_string()), None, None, 0))
        .collect();
    h.merge_import(batch);
    h
}

fn model(items: &[&str]) -> NavigationModel {
    let mut m = NavigationModel::new();
    m.refresh_list(&history(items));
    m
}

#[test]
fn refresh_list_selects_first_row() {
    let m = model(&["apple", "banana", "cherry"]);
    assert_eq!(m.row_count(), 3);
    assert_eq!(m.selected_row(), Some(0));
    assert!(!m.shows_placeholder());
}

#[test]
fn empty_history_shows_placeholder_and_takes_no_selection() {
    let mut m = model(&[]);
    assert!(m.shows_placeholder());
    assert_eq!(m.selected_row(), None);
    assert!(!m.move_selection(NavigationDirection::Down));
    assert!(!m.move_selection(NavigationDirection::Up));
    assert!(!m.select_first_row());
    m.focus_list();
    assert_eq!(m.selected_row(), None);
}

#[test]
fn filter_repairs_selection_to_first_visible() {
    let mut m = model(&["apple", "banana", "cherry"]);
    assert!(m.move_selection(NavigationDirection::Down));
    assert!(m.move_selection(NavigationDirection::Down));
    assert_eq!(m.selected_row(), Some(2));
    m.set_filter("an".to_string());
    assert!(!m.is_visible(0));
    assert!(m.is_visible(1));
    assert!(!m.is_visible(2));
    assert_eq!(m.selected_row(), Some(1));
}

#[test]
fn filter_keeps_visible_selection() {
    let mut m = model(&["apple", "banana", "cherry"]);
    m.move_selection(NavigationDirection::Down);
    m.set_filter("a".to_string());
    assert_eq!(m.selected_row(), Some(1));
}

#[test]
fn filter_with_no_match_clears_selection() {
    let mut m = model(&["apple", "banana"]);
    m.set_filter("zzz".to_string());
    assert_eq!(m.selected_row(), None);
    assert!(!m.select_first_row());
    assert!(!m.move_selection(NavigationDirection::Down));
}

#[test]
fn filter_is_case_insensitive() {
    let mut m = model(&["apple", "Banana", "cherry"]);
    m.set_filter("BAN".to_string());
    assert!(m.is_visible(1));
    assert!(!m.is_visible(0));
    assert_eq!(m.search_text(), "BAN");
}

#[test]
fn empty_filter_shows_all_rows() {
    let mut m = model(&["apple", "banana"]);
    m.set_filter("x".to_string());
    m.set_filter(String::new());
    assert!(m.is_visible(0) && m.is_visible(1));
}

#[test]
fn filter_matches_title_not_text_beyond_preview() {
    let long = format!("{}tail", "a".repeat(100));
    let mut m = model(&[long.as_str()]);
    m.set_filter("tail".to_string());
    assert!(!m.is_visible(0));
    m.set_filter("...".to_string());
    assert!(m.is_visible(0));
}

#[test]
fn title_cuts_long_text() {
    let long = "b".repeat(101);
    assert_eq!(title(&ClipboardContent::Text(long)), format!("{}...", "b".repeat(100)));
    let exact = "c".repeat(100);
    assert_eq!(title(&ClipboardContent::Text(exact.clone())), exact);
    assert_eq!(title(&ClipboardContent::Image), "[Image]");
}

#[test]
fn movement_skips_hidden_rows() {
    let mut m = model(&["apple", "kiwi", "banana", "plum", "mango"]);
    m.set_filter("an".to_string());
    assert_eq!(m.selected_row(), Some(2));
    assert!(m.move_selection(NavigationDirection::Down));
    assert_eq!(m.selected_row(), Some(4));
    assert!(m.move_selection(NavigationDirection::Up));
    assert_eq!(m.selected_row(), Some(2));
}

#[test]
fn no_movement_at_boundaries() {
    let mut m = model(&["a", "b", "c"]);
    assert_eq!(m.selected_row(), Some(0));
    assert!(!m.move_selection(NavigationDirection::Up));
    assert_eq!(m.selected_row(), Some(0));
    m.move_selection(NavigationDirection::Down);
    m.move_selection(NavigationDirection::Down);
    assert_eq!(m.selected_row(), Some(2));
    assert!(!m.move_selection(NavigationDirection::Down));
    assert_eq!(m.selected_row(), Some(2));
}

#[test]
fn movement_without_selection_goes_to_ends() {
    let mut m = model(&["a", "b", "c"]);
    m.set_filter("zz".to_string());
    m.set_filter(String::new());
    assert_eq!(m.selected_row(), None);
    assert!(m.move_selection(NavigationDirection::Up));
    assert_eq!(m.selected_row(), Some(2));
    m.set_filter("zz".to_string());
    m.set_filter(String::new());
    assert!(m.move_selection(NavigationDirection::Down));
    assert_eq!(m.selected_row(), Some(0));
}

#[test]
fn focus_selects_first_only_without_selection() {
    let mut m = model(&["a", "b"]);
    m.move_selection(NavigationDirection::Down);
    m.focus_list();
    assert_eq!(m.selected_row(), Some(1));
    m.set_filter("zz".to_string());
    m.set_filter(String::new());
    m.focus_list();
    assert_eq!(m.selected_row(), Some(0));
}

#[test]
fn activate_highlights_first_duplicate_only() {
    let mut m = model(&["x", "y", "x"]);
    assert_eq!(m.activate(2), Some("x".to_string()));
    assert_eq!(m.highlighted_row(), Some(0));
    let marked: Vec<usize> = (0..3).filter(|i| m.is_highlighted(*i)).collect();
    assert_eq!(marked, vec![0]);
    assert_eq!(m.current_clipboard(), Some("x".to_string()));
}

#[test]
fn activate_out_of_range_is_noop() {
    let mut m = model(&["x"]);
    assert_eq!(m.activate(5), None);
    assert_eq!(m.highlighted_row(), None);
    assert_eq!(m.current_clipboard(), None);
}

#[test]
fn activate_image_is_noop() {
    let mut h = ClipboardHistory::new();
    h.insert_front(ClipboardEntry::with_timestamp(ClipboardContent::Text("t".to_string()), None, None, 0));
    h.insert_front(ClipboardEntry::with_timestamp(ClipboardContent::Image, None, None, 0));
    let mut m = NavigationModel::new();
    m.refresh_list(&h);
    assert_eq!(m.activate(1), Some("t".to_string()));
    assert_eq!(m.activate(0), None);
    assert_eq!(m.highlighted_row(), Some(1));
    assert_eq!(m.current_clipboard(), Some("t".to_string()));
}

#[test]
fn highlight_follows_refresh() {
    let mut m = model(&["a", "b"]);
    m.set_current_clipboard("b".to_string());
    assert_eq!(m.highlighted_row(), Some(1));
    m.refresh_list(&history(&["b", "a", "b"]));
    assert_eq!(m.highlighted_row(), Some(0));
    m.refresh_list(&history(&["c"]));
    assert_eq!(m.highlighted_row(), None);
}

#[test]
fn key_with_modifier_is_passed_on() {
    let mut m = model(&["a", "b"]);
    let r = m.handle_key(KeyPress::Down, true, true, false);
    assert_eq!(r, KeyOutcome { handled: false, search_active: false });
    assert_eq!(m.selected_row(), Some(0));
}

#[test]
fn escape_closes_search() {
    let mut m = model(&["a"]);
    assert_eq!(m.handle_key(KeyPress::Escape, false, true, true), KeyOutcome { handled: false, search_active: false });
}

#[test]
fn printable_key_opens_search() {
    let mut m = model(&["a"]);
    assert_eq!(m.handle_key(KeyPress::Printable, false, true, false), KeyOutcome { handled: false, search_active: true });
    assert_eq!(m.handle_key(KeyPress::Other, false, true, false), KeyOutcome { handled: false, search_active: false });
}

#[test]
fn down_without_focus_selects_first() {
    let mut m = model(&["a", "b"]);
    m.move_selection(NavigationDirection::Down);
    let r = m.handle_key(KeyPress::Down, false, false, false);
    assert!(r.handled);
    assert_eq!(m.selected_row(), Some(0));
}

#[test]
fn arrows_with_focus_move() {
    let mut m = model(&["a", "b"]);
    assert!(m.handle_key(KeyPress::Down, false, true, false).handled);
    assert_eq!(m.selected_row(), Some(1));
    assert!(!m.handle_key(KeyPress::Down, false, true, false).handled);
    assert!(m.handle_key(KeyPress::Up, false, true, false).handled);
    assert!(!m.handle_key(KeyPress::Up, false, true, false).handled);
    assert_eq!(m.selected_row(), Some(0));
}

#[test]
fn stylesheet_marks_current_clipboard_rows() {
    let s = StyleService::new();
    assert!(s.stylesheet().contains("listboxrow.current-clipboard {"));
    assert_eq!(CURRENT_CLIPBOARD_CLASS, "current-clipboard");
}

#[test]
fn select_row_takes_only_visible_rows() {
    let mut m = model(&["apple", "banana", "cherry"]);
    assert!(m.select_row(2));
    assert_eq!(m.selected_row(), Some(2));
    m.set_filter("an".to_string());
    assert!(!m.select_row(0));
    assert!(!m.select_row(7));
    assert_eq!(m.selected_row(), Some(1));
}
