use addon_host::note::Note;

#[test]
fn new_note_holds_the_placeholder() {
    let note = Note::new();
    assert_eq!(note.text(), "EMPTY_NOTE");
}

#[test]
fn set_text_stores_the_canonical_form() {
    let mut note = Note::new();
    note.set_text("Hello World");
    assert_eq!(note.text(), "NOTE: Hello World");
}

#[test]
fn set_text_replaces_rather_than_appends() {
    let mut note = Note::new();
    note.set_text("first");
    note.set_text("second");
    assert_eq!(note.text(), "NOTE: second");
}

#[test]
fn set_text_of_the_empty_text_is_the_bare_annotation() {
    let mut note = Note::new();
    note.set_text("");
    assert_eq!(note.text(), "NOTE: ");
}

#[test]
fn canonical_form_is_not_idempotent() {
    let mut once = Note::new();
    once.set_text("Hello World");
    let mut twice = Note::new();
    twice.set_text(once.text());
    assert_eq!(twice.text(), "NOTE: NOTE: Hello World");
    assert_ne!(twice.text(), once.text());
}

#[test]
fn same_raw_text_twice_stores_the_same() {
    let mut note = Note::new();
    note.set_text("Hello World");
    note.set_text("Hello World");
    assert_eq!(note.text(), "NOTE: Hello World");
}

#[test]
fn set_text_keeps_text_beyond_ascii() {
    let mut note = Note::new();
    note.set_text("gr\u{fc}\u{df} dich");
    assert_eq!(note.text(), "NOTE: gr\u{fc}\u{df} dich");
}

#[test]
fn clone_copies_the_text_and_parts_from_the_source() {
    let mut note = Note::new();
    note.set_text("kept");
    let mut copy = note.clone();
    assert_eq!(copy.text(), "NOTE: kept");
    copy.set_text("changed");
    assert_eq!(note.text(), "NOTE: kept");
    assert_eq!(copy.text(), "NOTE: changed");
}
