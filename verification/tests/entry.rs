use todomvc::entry::{Entry, EntryStatus};

#[test]
fn new_entry_starts_in_status_new() {
    let entry = Entry::new(String::from("Water the plants"));
    assert_eq!(entry.description, "Water the plants");
    assert_eq!(entry.status, EntryStatus::New);
}

#[test]
fn new_entry_may_have_empty_text() {
    let entry = Entry::new(String::new());
    assert_eq!(entry.description, "");
    assert_eq!(entry.status, EntryStatus::New);
}

#[test]
fn toggle_swaps_new_and_completed() {
    assert_eq!(EntryStatus::New.toggle(), EntryStatus::Completed);
    assert_eq!(EntryStatus::Completed.toggle(), EntryStatus::New);
}

#[test]
fn toggle_leaves_editing_alone() {
    assert_eq!(EntryStatus::Editing.toggle(), EntryStatus::Editing);
}

#[test]
fn toggle_edit_swaps_new_and_editing() {
    assert_eq!(EntryStatus::New.toggle_edit(), EntryStatus::Editing);
    assert_eq!(EntryStatus::Editing.toggle_edit(), EntryStatus::New);
}

#[test]
fn toggle_edit_leaves_completed_alone() {
    assert_eq!(EntryStatus::Completed.toggle_edit(), EntryStatus::Completed);
}

#[test]
fn clone_keeps_text_and_status() {
    let entry = Entry { description: String::from("Feed the cat"), status: EntryStatus::Editing };
    let copy = entry.clone();
    assert_eq!(copy.description, "Feed the cat");
    assert_eq!(copy.status, EntryStatus::Editing);
    assert_eq!(copy, entry);
}

#[test]
fn entries_differ_by_text_or_status() {
    let entry = Entry { description: String::from("a"), status: EntryStatus::New };
    let other_text = Entry { description: String::from("b"), status: EntryStatus::New };
    let other_status = Entry { description: String::from("a"), status: EntryStatus::Completed };
    assert_ne!(entry, other_text);
    assert_ne!(entry, other_status);
}
