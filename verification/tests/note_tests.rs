use quick_entry::note::{build_note_request, plan_quick_note};
use quick_entry::shortcut::validate_shortcut;

#[test]
fn note_path_is_assembled_under_the_project() {
    let r = build_note_request("/proj", "notes", "My Note", "body", "my-note", "2024-01-02T03:04:05+00:00");
    assert_eq!(r.path, "/proj/src/content/notes/my-note.md");
    assert_eq!(r.project_root, "/proj");
    assert_eq!(r.body, "body");
    assert_eq!(r.imports, "");
    assert!(r.field_order.is_none());
}

#[test]
fn frontmatter_with_title_holds_title_then_created() {
    let r = build_note_request("/proj", "notes", "My Note", "body", "my-note", "stamp");
    assert_eq!(r.frontmatter.len(), 2);
    assert_eq!(r.frontmatter[0].0, "title");
    assert_eq!(r.frontmatter[0].1, "My Note");
    assert_eq!(r.frontmatter[1].0, "created");
    assert_eq!(r.frontmatter[1].1, "stamp");
}

#[test]
fn empty_title_omits_title_key_but_keeps_created() {
    let r = build_note_request("/proj", "notes", "   ", "body", "quick-note-x", "stamp");
    assert_eq!(r.frontmatter.len(), 1);
    assert_eq!(r.frontmatter[0].0, "created");
    assert_eq!(r.frontmatter[0].1, "stamp");
    assert!(r.frontmatter.iter().all(|(k, _)| k != "title"));
}

#[test]
fn planned_note_derives_name_and_stamps_creation() {
    let r = plan_quick_note("/proj", "posts", "Hello World", "content");
    assert_eq!(r.path, "/proj/src/content/posts/hello-world.md");
    assert_eq!(r.frontmatter.len(), 2);
    assert_eq!(r.frontmatter[1].0, "created");
    assert!(!r.frontmatter[1].1.is_empty());

    let r = plan_quick_note("/proj", "posts", "", "");
    assert!(r.path.starts_with("/proj/src/content/posts/quick-note-"));
    assert!(r.path.ends_with(".md"));
    assert_eq!(r.frontmatter.len(), 1);
    assert_eq!(r.frontmatter[0].0, "created");
}

#[test]
fn empty_shortcut_is_rejected_before_any_side_effect() {
    let e = validate_shortcut("");
    assert_eq!(e.unwrap_err(), "Shortcut cannot be empty");
    assert!(validate_shortcut("Cmd+Shift+N").is_ok());
}
