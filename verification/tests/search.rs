use todomvc::entry::{Entry, EntryStatus};
use todomvc::filter::Filter;
use todomvc::state::State;

fn entry(description: &str, status: EntryStatus) -> Entry {
    Entry { description: String::from(description), status }
}

fn animals() -> State {
    State::new(vec![
        entry("Cat", EntryStatus::New),
        entry("Dog", EntryStatus::New),
        entry("Caterpillar", EntryStatus::New),
    ])
}

fn descriptions(entries: &Vec<Entry>) -> Vec<String> {
    let mut all = Vec::new();
    for entry in entries {
        all.push(entry.description.clone());
    }
    all
}

#[test]
fn search_round_trip() {
    let mut state = animals();
    state.search_todos(String::from("cat"));
    assert_eq!(descriptions(&state.entries), vec!["Cat", "Caterpillar"]);
    state.search_todos(String::new());
    assert_eq!(descriptions(&state.entries), vec!["Cat", "Dog", "Caterpillar"]);
    assert!(state.entries_bkp.is_empty());
}

#[test]
fn search_backs_up_the_entries() {
    let mut state = animals();
    state.search_todos(String::from("dog"));
    assert_eq!(descriptions(&state.entries), vec!["Dog"]);
    assert_eq!(state.entries_bkp, animals().entries);
}

#[test]
fn search_trims_the_text() {
    let mut state = animals();
    state.search_todos(String::from("  cat \n"));
    assert_eq!(descriptions(&state.entries), vec!["Cat", "Caterpillar"]);
    state.search_todos(String::from(" \t "));
    assert_eq!(descriptions(&state.entries), vec!["Cat", "Dog", "Caterpillar"]);
    assert!(state.entries_bkp.is_empty());
}

#[test]
fn blank_search_without_backup_does_nothing() {
    let mut state = animals();
    state.search_todos(String::new());
    assert_eq!(state.entries, animals().entries);
    assert!(state.entries_bkp.is_empty());
    state.search_todos(String::from("   "));
    assert_eq!(state.entries, animals().entries);
    assert!(state.entries_bkp.is_empty());
}

#[test]
fn repeated_search_narrows_what_is_left() {
    let mut state = animals();
    state.search_todos(String::from("cat"));
    state.search_todos(String::from("pillar"));
    assert_eq!(descriptions(&state.entries), vec!["Caterpillar"]);
    state.search_todos(String::from("dog"));
    assert!(state.entries.is_empty());
}

#[test]
fn repeated_search_keeps_the_first_backup() {
    let mut state = animals();
    state.search_todos(String::from("cat"));
    state.search_todos(String::from("pillar"));
    assert_eq!(state.entries_bkp, animals().entries);
    state.search_todos(String::from("dog"));
    assert_eq!(state.entries_bkp, animals().entries);
    state.search_todos(String::new());
    assert_eq!(state.entries, animals().entries);
}

#[test]
fn search_keeps_status_and_order() {
    let mut state = State::new(vec![
        entry("b cat", EntryStatus::Completed),
        entry("dog", EntryStatus::New),
        entry("a cat", EntryStatus::Editing),
    ]);
    state.search_todos(String::from("CAT"));
    assert_eq!(
        state.entries,
        vec![entry("b cat", EntryStatus::Completed), entry("a cat", EntryStatus::Editing)]
    );
}

#[test]
fn search_leaves_filter_and_buffers_alone() {
    let mut state = animals();
    state.filter = Filter::Active;
    state.value = String::from("draft");
    state.edit_value = String::from("edit");
    state.search_value = String::from("box");
    state.search_todos(String::from("cat"));
    assert_eq!(state.filter, Filter::Active);
    assert_eq!(state.value, "draft");
    assert_eq!(state.edit_value, "edit");
    assert_eq!(state.search_value, "box");
}

#[test]
fn search_without_match_empties_the_list_until_cleared() {
    let mut state = animals();
    state.search_todos(String::from("zebra"));
    assert!(state.entries.is_empty());
    assert_eq!(state.entries_bkp, animals().entries);
    state.search_todos(String::new());
    assert_eq!(state.entries, animals().entries);
}

#[test]
fn search_with_invalid_pattern_matches_nothing() {
    let mut state = animals();
    state.search_todos(String::from("(cat"));
    assert!(state.entries.is_empty());
    assert_eq!(state.entries_bkp, animals().entries);
    state.search_todos(String::from(" "));
    assert_eq!(state.entries, animals().entries);
}

#[test]
fn search_on_empty_store_holds_no_backup() {
    let mut state = State::new(Vec::new());
    state.search_todos(String::from("cat"));
    assert!(state.entries.is_empty());
    assert!(state.entries_bkp.is_empty());
    state.search_todos(String::new());
    assert!(state.entries.is_empty());
}

#[test]
fn changes_made_while_searching_are_dropped_on_restore() {
    let mut state = animals();
    state.search_todos(String::from("cat"));
    assert_eq!(state.toggle(1), Ok(()));
    state.add(String::from("Catfish"));
    assert_eq!(descriptions(&state.entries), vec!["Cat", "Caterpillar", "Catfish"]);
    state.search_todos(String::new());
    assert_eq!(state.entries, animals().entries);
}

#[test]
fn commit_search_takes_the_needle_as_it_is() {
    let mut state = State::new(vec![
        entry("black cat", EntryStatus::New),
        entry("blackcat", EntryStatus::New),
        entry("cat ", EntryStatus::New),
    ]);
    state.commit_search(String::from("cat "));
    assert_eq!(descriptions(&state.entries), vec!["cat "]);
    state.commit_search(String::from(" "));
    assert_eq!(descriptions(&state.entries), vec!["cat "]);
    state.commit_search(String::from("  "));
    assert!(state.entries.is_empty());
    state.commit_search(String::new());
    assert_eq!(descriptions(&state.entries), vec!["black cat", "blackcat", "cat "]);
    assert!(state.entries_bkp.is_empty());
}
