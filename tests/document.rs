use rm_editor::document::{DocError, Document};

fn doc_with_path(p: &str) -> Document {
    let mut d = Document::new();
    d.file_path = Some(p.to_string());
    d
}

#[test]
fn new_document_is_empty() {
    let d = Document::new();
    assert_eq!(d.text, "");
    assert_eq!(d.file_path, None);
    assert!(!d.is_modified);
    assert_eq!(d.cursor_offset, 0);
    assert_eq!(d.rope.to_text(), "");
    assert!(d.line_starts.is_empty());
}

#[test]
fn default_matches_new() {
    let d = Document::default();
    assert_eq!(d.text, "");
    assert_eq!(d.file_path, None);
    assert!(!d.is_modified);
    assert!(d.line_starts.is_empty());
}

#[test]
fn scenario_empty_then_three_lines() {
    let mut d = Document::new();
    d.sync_to_rope();
    assert_eq!(d.line_starts, vec![0]);
    assert!(!d.is_modified);
    d.text = "a\nb\nc".to_string();
    d.sync_to_rope();
    assert_eq!(d.rope.line_count(), 3);
    assert_eq!(d.line_starts, vec![0, 1, 2]);
    assert!(d.is_modified);
    assert_eq!(d.rope.to_text(), "a\nb\nc");
}

#[test]
fn sync_twice_is_idempotent() {
    let mut d = Document::new();
    d.text = "one\ntwo\n".to_string();
    d.sync_to_rope();
    let rope_text = d.rope.to_text();
    let lines = d.line_starts.clone();
    let modified = d.is_modified;
    d.sync_to_rope();
    assert_eq!(d.rope.to_text(), rope_text);
    assert_eq!(d.line_starts, lines);
    assert_eq!(d.is_modified, modified);
}

#[test]
fn line_starts_match_line_count_after_sync() {
    let mut d = Document::new();
    for t in ["", "x", "x\n", "x\r\ny\rz", "\n\n"] {
        d.text = t.to_string();
        d.sync_to_rope();
        assert_eq!(d.line_starts.len(), d.rope.line_count());
    }
}

#[test]
fn sync_from_rope_copies_rope_text() {
    let mut d = Document::new();
    d.text = "abc".to_string();
    d.sync_to_rope();
    d.text = "changed".to_string();
    d.sync_from_rope();
    assert_eq!(d.text, "abc");
    assert_eq!(d.line_starts, vec![0]);
    assert!(d.is_modified);
}

#[test]
fn sync_from_rope_on_new_document_rebuilds_index() {
    let mut d = Document::new();
    d.sync_from_rope();
    assert_eq!(d.text, "");
    assert_eq!(d.line_starts, vec![0]);
}

#[test]
fn sync_lines_from_rope_rebuilds_index() {
    let mut d = Document::new();
    d.sync_lines_from_rope();
    assert_eq!(d.line_starts, vec![0]);
}

#[test]
fn open_resets_modification_and_cursor() {
    let mut d = Document::new();
    d.text = "old".to_string();
    d.sync_to_rope();
    d.cursor_offset = 2;
    assert!(d.is_modified);
    let r = d.open_file("notes.txt", Some("l1\nl2".to_string()));
    assert_eq!(r, Ok(()));
    assert!(!d.is_modified);
    assert_eq!(d.cursor_offset, 0);
    assert_eq!(d.text, "l1\nl2");
    assert_eq!(d.rope.to_text(), "l1\nl2");
    assert_eq!(d.file_path, Some("notes.txt".to_string()));
    assert_eq!(d.line_starts, vec![0, 1]);
}

#[test]
fn open_failure_leaves_document_unchanged() {
    let mut d = doc_with_path("a.txt");
    d.text = "keep\nme".to_string();
    d.sync_to_rope();
    let r = d.open_file("/nonexistent", None);
    assert_eq!(r, Err(DocError::Io));
    assert_eq!(d.text, "keep\nme");
    assert_eq!(d.rope.to_text(), "keep\nme");
    assert_eq!(d.file_path, Some("a.txt".to_string()));
    assert!(d.is_modified);
    assert_eq!(d.line_starts, vec![0, 1]);
}

#[test]
fn save_without_path_keeps_path() {
    let mut d = doc_with_path("a.txt");
    d.is_modified = true;
    assert_eq!(d.save_target(None), Ok("a.txt".to_string()));
    assert_eq!(d.save_file(None, true), Ok(()));
    assert_eq!(d.file_path, Some("a.txt".to_string()));
    assert!(!d.is_modified);
}

#[test]
fn save_as_changes_path() {
    let mut d = doc_with_path("a.txt");
    d.is_modified = true;
    assert_eq!(d.save_target(Some("b.txt")), Ok("b.txt".to_string()));
    assert_eq!(d.save_file(Some("b.txt"), true), Ok(()));
    assert_eq!(d.file_path, Some("b.txt".to_string()));
    assert!(!d.is_modified);
}

#[test]
fn save_with_no_path_anywhere_is_no_path_error() {
    let mut d = Document::new();
    d.is_modified = true;
    assert_eq!(d.save_target(None), Err(DocError::NoPath));
    assert_eq!(d.save_file(None, true), Err(DocError::NoPath));
    assert_eq!(d.file_path, None);
    assert!(d.is_modified);
}

#[test]
fn failed_write_is_io_error_and_changes_nothing() {
    let mut d = doc_with_path("a.txt");
    d.is_modified = true;
    assert_eq!(d.save_file(Some("b.txt"), false), Err(DocError::Io));
    assert_eq!(d.file_path, Some("a.txt".to_string()));
    assert!(d.is_modified);
}
