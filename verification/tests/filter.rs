use todomvc::entry::{Entry, EntryStatus};
use todomvc::filter::Filter;
use todomvc::selection::{filtered_view, resolve, IndexOutOfRange};

fn entry(description: &str, status: EntryStatus) -> Entry {
    Entry { description: String::from(description), status }
}

fn sample() -> Vec<Entry> {
    vec![
        entry("Cat", EntryStatus::New),
        entry("Dog", EntryStatus::Completed),
        entry("Caterpillar", EntryStatus::Editing),
        entry("Bird", EntryStatus::Completed),
    ]
}

fn descriptions(entries: &Vec<Entry>) -> Vec<String> {
    let mut texts = Vec::new();
    for entry in entries {
        texts.push(entry.description.clone());
    }
    texts
}

#[test]
fn all_fits_every_status() {
    assert!(Filter::All.fit(&entry("a", EntryStatus::New)));
    assert!(Filter::All.fit(&entry("a", EntryStatus::Completed)));
    assert!(Filter::All.fit(&entry("a", EntryStatus::Editing)));
}

#[test]
fn active_fits_new_and_editing() {
    assert!(Filter::Active.fit(&entry("a", EntryStatus::New)));
    assert!(Filter::Active.fit(&entry("a", EntryStatus::Editing)));
    assert!(!Filter::Active.fit(&entry("a", EntryStatus::Completed)));
}

#[test]
fn completed_fits_completed_only() {
    assert!(Filter::Completed.fit(&entry("a", EntryStatus::Completed)));
    assert!(!Filter::Completed.fit(&entry("a", EntryStatus::New)));
    assert!(!Filter::Completed.fit(&entry("a", EntryStatus::Editing)));
}

#[test]
fn search_fits_substring() {
    let filter = Filter::Search(String::from("ate"));
    assert!(filter.fit(&entry("Caterpillar", EntryStatus::New)));
    assert!(!filter.fit(&entry("Cat", EntryStatus::New)));
}

#[test]
fn search_ignores_case() {
    let filter = Filter::Search(String::from("cAt"));
    assert!(filter.fit(&entry("Cat", EntryStatus::New)));
    assert!(filter.fit(&entry("CATERPILLAR", EntryStatus::Completed)));
    assert!(filter.fit(&entry("bobcat", EntryStatus::Editing)));
    assert!(!filter.fit(&entry("Dog", EntryStatus::New)));
}

#[test]
fn search_ignores_status() {
    let filter = Filter::Search(String::from("dog"));
    assert!(filter.fit(&entry("Dog", EntryStatus::New)));
    assert!(filter.fit(&entry("Dog", EntryStatus::Completed)));
    assert!(filter.fit(&entry("Dog", EntryStatus::Editing)));
}

#[test]
fn search_with_empty_text_fits_everything() {
    let filter = Filter::Search(String::new());
    assert!(filter.fit(&entry("Dog", EntryStatus::New)));
    assert!(filter.fit(&entry("", EntryStatus::Completed)));
}

#[test]
fn search_text_is_pattern_syntax() {
    let filter = Filter::Search(String::from("c.t"));
    assert!(filter.fit(&entry("Cat", EntryStatus::New)));
    assert!(filter.fit(&entry("cut", EntryStatus::New)));
    assert!(!filter.fit(&entry("c.", EntryStatus::New)));
    let anchored = Filter::Search(String::from("^do"));
    assert!(anchored.fit(&entry("Dog", EntryStatus::New)));
    assert!(!anchored.fit(&entry("undo", EntryStatus::New)));
}

#[test]
fn search_with_invalid_pattern_fits_nothing() {
    let filter = Filter::Search(String::from("(cat"));
    assert!(!filter.fit(&entry("(cat", EntryStatus::New)));
    assert!(!filter.fit(&entry("cat", EntryStatus::New)));
    let filter = Filter::Search(String::from("*"));
    assert!(!filter.fit(&entry("*", EntryStatus::New)));
    assert!(!filter.fit(&entry("", EntryStatus::New)));
}

#[test]
fn matcher_decides_as_its_filter() {
    let filters = vec![
        Filter::All,
        Filter::Active,
        Filter::Completed,
        Filter::Search(String::from("cat")),
        Filter::Search(String::from("(")),
    ];
    for filter in &filters {
        let matcher = filter.matcher();
        for entry in &sample() {
            assert_eq!(matcher.fit(entry), filter.fit(entry));
        }
    }
}

#[test]
fn filtered_view_keeps_order() {
    let entries = sample();
    assert_eq!(
        descriptions(&filtered_view(&Filter::All, &entries)),
        vec!["Cat", "Dog", "Caterpillar", "Bird"]
    );
    assert_eq!(
        descriptions(&filtered_view(&Filter::Active, &entries)),
        vec!["Cat", "Caterpillar"]
    );
    assert_eq!(
        descriptions(&filtered_view(&Filter::Completed, &entries)),
        vec!["Dog", "Bird"]
    );
    assert_eq!(
        descriptions(&filtered_view(&Filter::Search(String::from("CAT")), &entries)),
        vec!["Cat", "Caterpillar"]
    );
}

#[test]
fn filtered_view_copies_entries_whole() {
    let entries = sample();
    let shown = filtered_view(&Filter::Completed, &entries);
    assert_eq!(shown, vec![entry("Dog", EntryStatus::Completed), entry("Bird", EntryStatus::Completed)]);
    assert_eq!(entries, sample());
}

#[test]
fn filtered_view_of_empty_list_is_empty() {
    let entries: Vec<Entry> = Vec::new();
    assert!(filtered_view(&Filter::All, &entries).is_empty());
    assert!(filtered_view(&Filter::Search(String::from("a")), &entries).is_empty());
}

#[test]
fn resolve_under_all_is_identity() {
    let entries = sample();
    for idx in 0..4 {
        assert_eq!(resolve(&Filter::All, &entries, idx), Ok(idx));
    }
}

#[test]
fn resolve_skips_hidden_entries() {
    let entries = sample();
    assert_eq!(resolve(&Filter::Completed, &entries, 0), Ok(1));
    assert_eq!(resolve(&Filter::Completed, &entries, 1), Ok(3));
    assert_eq!(resolve(&Filter::Active, &entries, 0), Ok(0));
    assert_eq!(resolve(&Filter::Active, &entries, 1), Ok(2));
    assert_eq!(resolve(&Filter::Search(String::from("r")), &entries, 0), Ok(2));
    assert_eq!(resolve(&Filter::Search(String::from("r")), &entries, 1), Ok(3));
}

#[test]
fn resolve_beyond_view_is_out_of_range() {
    let entries = sample();
    assert_eq!(
        resolve(&Filter::All, &entries, 4),
        Err(IndexOutOfRange { index: 4, shown: 4 })
    );
    assert_eq!(
        resolve(&Filter::Completed, &entries, 2),
        Err(IndexOutOfRange { index: 2, shown: 2 })
    );
    assert_eq!(
        resolve(&Filter::Search(String::from("zebra")), &entries, 0),
        Err(IndexOutOfRange { index: 0, shown: 0 })
    );
    assert_eq!(
        resolve(&Filter::All, &Vec::new(), usize::MAX),
        Err(IndexOutOfRange { index: usize::MAX, shown: 0 })
    );
}

#[test]
fn filters_compare_by_kind_and_text() {
    assert_eq!(Filter::All, Filter::All);
    assert_eq!(Filter::Search(String::from("a")), Filter::Search(String::from("a")));
    assert_ne!(Filter::Search(String::from("a")), Filter::Search(String::from("b")));
    assert_ne!(Filter::Active, Filter::Completed);
    assert_ne!(Filter::All, Filter::Search(String::new()));
}

#[test]
fn filter_clone_is_equal() {
    let filter = Filter::Search(String::from("needle"));
    assert_eq!(filter.clone(), filter);
    assert_eq!(Filter::Active.clone(), Filter::Active);
}

#[test]
fn href_of_each_filter() {
    assert_eq!(Filter::All.href(), "#/");
    assert_eq!(Filter::Active.href(), "#/active");
    assert_eq!(Filter::Completed.href(), "#/completed");
    assert_eq!(Filter::Search(String::from("anything")).href(), "#/search");
    assert_eq!(Filter::Search(String::new()).href(), "#/search");
}
