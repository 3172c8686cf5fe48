use clipboard_manager::entry::{ClipboardContent, ClipboardEntry};
use clipboard_manager::history::ClipboardHistory;

fn entry(s: &str) -> ClipboardEntry {
    ClipboardEntry::with_timestamp(ClipboardContent::Text(s.to_string()), None, None, 0)
}

fn image() -> ClipboardEntry {
    ClipboardEntry::with_timestamp(ClipboardContent::Image, None, None, 0)
}

fn texts(h: &ClipboardHistory) -> Vec<String> {
    h.entries().iter().map(|e| e.content.as_text()).collect()
}

#[test]
fn new_history_is_empty_with_default_capacity() {
    let h = ClipboardHistory::new();
    assert_eq!(h.len(), 0);
    assert_eq!(h.capacity(), 100);
}

#[test]
fn insert_front_puts_newest_first() {
    let mut h = ClipboardHistory::new();
    assert!(h.insert_front(entry("a")));
    assert!(h.insert_front(entry("b")));
    assert_eq!(texts(&h), vec!["b", "a"]);
}

#[test]
fn cap_keeps_most_recent_entries() {
    let mut h = ClipboardHistory::with_capacity(3);
    for s in ["1", "2", "3", "4", "5"] {
        h.insert_front(entry(s));
        assert!(h.len() <= 3);
    }
    assert_eq!(texts(&h), vec!["5", "4", "3"]);
}

#[test]
fn default_cap_is_one_hundred() {
    let mut h = ClipboardHistory::new();
    for i in 0..150 {
        h.insert_front(entry(&i.to_string()));
    }
    assert_eq!(h.len(), 100);
    assert_eq!(h.entries()[0].content.as_text(), "149");
    assert_eq!(h.entries()[99].content.as_text(), "50");
}

#[test]
fn zero_capacity_keeps_nothing() {
    let mut h = ClipboardHistory::with_capacity(0);
    assert!(h.insert_front(entry("a")));
    assert_eq!(h.len(), 0);
}

#[test]
fn immediate_repeat_is_suppressed() {
    let mut h = ClipboardHistory::new();
    assert!(h.insert_front(entry("a")));
    assert!(!h.insert_front(entry("a")));
    assert_eq!(texts(&h), vec!["a"]);
}

#[test]
fn repeat_after_other_entry_is_added() {
    let mut h = ClipboardHistory::new();
    h.insert_front(entry("a"));
    h.insert_front(entry("b"));
    assert!(h.insert_front(entry("a")));
    assert_eq!(texts(&h), vec!["a", "b", "a"]);
}

#[test]
fn repeated_image_is_suppressed() {
    let mut h = ClipboardHistory::new();
    assert!(h.insert_front(image()));
    assert!(!h.insert_front(image()));
    assert_eq!(h.len(), 1);
}

#[test]
fn add_entry_with_source_records_source() {
    let mut h = ClipboardHistory::new();
    assert!(h.add_entry_with_source(ClipboardContent::Text("a".to_string()), "cliphist".to_string()));
    assert!(!h.add_entry_with_source(ClipboardContent::Text("a".to_string()), "other".to_string()));
    assert_eq!(h.entries()[0].source, "cliphist");
    assert_eq!(h.len(), 1);
}

#[test]
fn merge_into_empty_keeps_provider_order() {
    let mut h = ClipboardHistory::new();
    h.merge_import(vec![entry("c1"), entry("c2"), entry("c3")]);
    assert_eq!(texts(&h), vec!["c1", "c2", "c3"]);
}

#[test]
fn merge_sits_above_existing_entries() {
    let mut h = ClipboardHistory::new();
    h.insert_front(entry("live"));
    h.merge_import(vec![entry("c1"), entry("c2")]);
    assert_eq!(texts(&h), vec!["c1", "c2", "live"]);
}

#[test]
fn merge_skips_only_immediate_head_repeats() {
    let mut h = ClipboardHistory::new();
    h.insert_front(entry("x"));
    h.merge_import(vec![entry("y"), entry("x"), entry("x")]);
    assert_eq!(texts(&h), vec!["y", "x"]);
    h.merge_import(vec![entry("x")]);
    assert_eq!(texts(&h), vec!["x", "y", "x"]);
}

#[test]
fn merge_respects_capacity() {
    let mut h = ClipboardHistory::with_capacity(2);
    h.insert_front(entry("old"));
    h.merge_import(vec![entry("c1"), entry("c2"), entry("c3")]);
    assert_eq!(texts(&h), vec!["c1", "c2"]);
}

#[test]
fn clear_empties_history() {
    let mut h = ClipboardHistory::new();
    h.insert_front(entry("a"));
    h.clear();
    assert_eq!(h.len(), 0);
    assert!(h.insert_front(entry("a")));
}
