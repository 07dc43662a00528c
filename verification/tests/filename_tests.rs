use quick_entry::filename::{derive_filename, generate_quick_note_filename};

#[test]
fn test_filename_generation() {
    assert_eq!(
        generate_quick_note_filename("My Title", "Some content"),
        "my-title"
    );
    assert_eq!(
        generate_quick_note_filename("", "# First Line\nOther content"),
        "first-line"
    );
    // Timestamp test would be hard to verify exactly, so just check it starts with "quick-note-"
    assert!(generate_quick_note_filename("", "").starts_with("quick-note-"));
}

#[test]
fn title_wins_over_content() {
    assert_eq!(generate_quick_note_filename("Hello World", "ignored"), "hello-world");
    assert_eq!(
        generate_quick_note_filename("  spaced title  ", "# Not Used\nbody"),
        "spaced-title"
    );
}

#[test]
fn first_line_hashes_and_carriage_return() {
    assert_eq!(generate_quick_note_filename("", "## Deep # Heading\r\nrest"), "deep-heading");
    assert_eq!(generate_quick_note_filename("", "plain first line"), "plain-first-line");
}

#[test]
fn long_first_line_falls_back_to_timestamp() {
    let long_line = "x".repeat(51);
    let name = generate_quick_note_filename("", &long_line);
    assert!(name.starts_with("quick-note-"));
    let at_limit = "y".repeat(50);
    assert_eq!(generate_quick_note_filename("", &at_limit), at_limit);
}

#[test]
fn blank_title_and_content_use_timestamp() {
    let name = generate_quick_note_filename("", "");
    assert!(name.starts_with("quick-note-"));
    let suffix = &name["quick-note-".len()..];
    assert!(chrono::NaiveDateTime::parse_from_str(suffix, "%Y-%m-%d-%H%M%S").is_ok());
}

#[test]
fn derive_filename_with_fixed_stamp() {
    assert_eq!(derive_filename("", "", "2024-01-02-030405"), "quick-note-2024-01-02-030405");
    assert_eq!(derive_filename("A Title", "", "2024-01-02-030405"), "a-title");
    assert_eq!(derive_filename("", "# Note\n", "2024-01-02-030405"), "note");
    assert_eq!(derive_filename("", "###\n", "2024-01-02-030405"), "quick-note-2024-01-02-030405");
}
