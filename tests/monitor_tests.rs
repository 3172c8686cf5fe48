use clipboard_manager::entry::ClipboardContent;
use clipboard_manager::monitor::ClipboardMonitor;

fn history_texts(m: &ClipboardMonitor) -> Vec<String> {
    m.history().entries().iter().map(|e| e.content.as_text()).collect()
}

#[test]
fn empty_clipboard_text_is_ignored() {
    let mut m = ClipboardMonitor::new();
    assert!(!m.record_clipboard_text(String::new()));
    assert_eq!(m.history().len(), 0);
}

#[test]
fn clipboard_text_is_recorded_with_unknown_source() {
    let mut m = ClipboardMonitor::new();
    assert!(m.record_clipboard_text("hello".to_string()));
    assert!(m.record_clipboard_text("hello".to_string()));
    assert_eq!(history_texts(&m), vec!["hello"]);
    assert_eq!(m.history().entries()[0].source, "Unknown");
}

#[test]
fn import_merges_below_nothing_and_keeps_ids() {
    let mut m = ClipboardMonitor::new();
    m.record_clipboard_text("live".to_string());
    let items = vec![
        (Some("2".to_string()), ClipboardContent::Text("newer".to_string())),
        (None, ClipboardContent::Image),
    ];
    m.import_entries("cliphist", &items, 500);
    assert_eq!(history_texts(&m), vec!["newer", "[Image]", "live"]);
    let first = &m.history().entries()[0];
    assert_eq!(first.source, "cliphist");
    assert_eq!(first.raw_id.as_deref(), Some("2"));
    assert_eq!(first.timestamp, 500);
}

#[test]
fn entries_from_records_keeps_order() {
    let items = vec![
        (None, ClipboardContent::Text("a".to_string())),
        (Some("1".to_string()), ClipboardContent::Text("b".to_string())),
    ];
    let v = ClipboardMonitor::entries_from_records(&items, "p", 9);
    assert_eq!(v.len(), 2);
    assert_eq!(v[0].content.as_text(), "a");
    assert_eq!(v[1].raw_id.as_deref(), Some("1"));
    assert_eq!(v[1].source, "p");
}

#[test]
fn load_history_success_merges() {
    let mut m = ClipboardMonitor::new();
    let listing = Ok(vec![
        (None, ClipboardContent::Text("c1".to_string())),
        (None, ClipboardContent::Text("c2".to_string())),
    ]);
    assert!(m.load_history("cliphist", listing).is_ok());
    assert_eq!(history_texts(&m), vec!["c1", "c2"]);
}

#[test]
fn load_history_failure_keeps_history() {
    let mut m = ClipboardMonitor::new();
    m.record_clipboard_text("kept".to_string());
    let r = m.load_history("cliphist", Err("cliphist list non-zero exit: boom".to_string()));
    assert_eq!(r.unwrap_err(), "cliphist list non-zero exit: boom");
    assert_eq!(history_texts(&m), vec!["kept"]);
}
