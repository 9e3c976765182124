use canva_note::editor::{keep_watching, EditorSync, POLL_INTERVAL_MS};

#[test]
fn only_changed_content_is_sent() {
    let mut sync = EditorSync::new("# title");
    assert_eq!(sync.observe("# title".to_string()), None);
    assert_eq!(sync.observe("# title\nmore".to_string()), Some("# title\nmore".to_string()));
    assert_eq!(sync.observe("# title\nmore".to_string()), None);
    assert_eq!(sync.observe("# title".to_string()), Some("# title".to_string()));
}

#[test]
fn an_empty_note_sends_its_first_text() {
    let mut sync = EditorSync::new("");
    assert_eq!(sync.observe(String::new()), None);
    assert_eq!(sync.observe("x".to_string()), Some("x".to_string()));
}

#[test]
fn the_watcher_stops_on_shutdown_or_when_the_editor_exits() {
    assert!(keep_watching(false, false));
    assert!(!keep_watching(true, false));
    assert!(!keep_watching(false, true));
    assert!(!keep_watching(true, true));
    assert_eq!(POLL_INTERVAL_MS, 250);
}
