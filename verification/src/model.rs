//! The mathematical model of the store: a state is a value, and every
//! operation is a function from a state to the next one. The executable
//! store in [`crate::state`] is proved to follow this model step by step.

use crate::entry::{EntryStatus, EntryView};
use crate::filter::FilterView;
use crate::pattern::trimmed;
use crate::selection::{filtered, positions};
use vstd::prelude::*;

verus! {

/// What a bulk toggle makes of one entry: an entry that the filter shows and
/// that is not being edited gets the status asked for, any other stays.
pub open spec fn bulk_marked(entry: EntryView, filter: FilterView, completed: bool) -> EntryView {
    if filter.fits(entry) && entry.status != EntryStatus::Editing {
        EntryView { status: EntryStatus::marked(completed), ..entry }
    } else {
        entry
    }
}

/// A new entry for each of `descriptions`, in their order.
pub open spec fn fresh_entries(descriptions: Seq<Seq<char>>) -> Seq<EntryView> {
    descriptions.map_values(
        |description: Seq<char>| EntryView { description, status: EntryStatus::New },
    )
}

/// The whole state of the store as a mathematical value.
pub struct StateView {
    /// The entries, in insertion order.
    pub entries: Seq<EntryView>,
    /// The entries as they were before the running search narrowed them;
    /// empty when no search is running.
    pub backup: Seq<EntryView>,
    /// The filter in force.
    pub filter: FilterView,
    /// The text typed for the next entry.
    pub value: Seq<char>,
    /// The text typed in the edit box.
    pub edit_value: Seq<char>,
    /// The text typed in the search box.
    pub search_value: Seq<char>,
}

impl StateView {
    /// The state in which a store starts: it holds `entries`, shows all of
    /// them, runs no search, and its text buffers are empty.
    pub open spec fn initial(entries: Seq<EntryView>) -> StateView {
        StateView {
            entries,
            backup: Seq::empty(),
            filter: FilterView::All,
            value: Seq::empty(),
            edit_value: Seq::empty(),
            search_value: Seq::empty(),
        }
    }

    /// The entries that the filter in force shows.
    pub open spec fn filtered(self) -> Seq<EntryView> {
        filtered(self.entries, self.filter)
    }

    /// Whether `n` is an index into the filtered view.
    pub open spec fn shows(self, n: int) -> bool {
        0 <= n < self.filtered().len()
    }

    /// The place in the full list of entry `n` of the filtered view.
    pub open spec fn resolve(self, n: int) -> int
        recommends
            self.shows(n),
    {
        positions(self.entries, self.filter)[n]
    }

    /// This state with other entries.
    pub open spec fn with_entries(self, entries: Seq<EntryView>) -> StateView {
        StateView { entries, ..self }
    }

    /// The number of entries, whatever the filter.
    pub open spec fn total(self) -> nat {
        self.entries.len()
    }

    /// The number of completed entries, whatever the filter.
    pub open spec fn total_completed(self) -> nat {
        filtered(self.entries, FilterView::Completed).len()
    }

    /// Whether the filtered view is not empty and holds completed entries
    /// only.
    pub open spec fn is_all_completed(self) -> bool {
        let shown = self.filtered();
        &&& shown.len() > 0
        &&& forall|n: int|
            0 <= n < shown.len() ==> (#[trigger] shown[n]).status == EntryStatus::Completed
    }

    /// A new entry with the given text at the end of the list.
    pub open spec fn add(self, description: Seq<char>) -> StateView {
        self.with_entries(
            self.entries.push(EntryView { description, status: EntryStatus::New }),
        )
    }

    /// Entry `n` of the filtered view, with its completion flipped.
    pub open spec fn toggle(self, n: int) -> StateView
        recommends
            self.shows(n),
    {
        let at = self.resolve(n);
        let entry = self.entries[at];
        self.with_entries(
            self.entries.update(at, EntryView { status: entry.status.toggled(), ..entry }),
        )
    }

    /// Entry `n` of the filtered view, with its edit mode flipped.
    pub open spec fn toggle_edit(self, n: int) -> StateView
        recommends
            self.shows(n),
    {
        let at = self.resolve(n);
        let entry = self.entries[at];
        self.with_entries(
            self.entries.update(at, EntryView { status: entry.status.edit_toggled(), ..entry }),
        )
    }

    /// Entry `n` of the filtered view, with a new text and out of edit mode.
    pub open spec fn complete_edit(self, n: int, description: Seq<char>) -> StateView
        recommends
            self.shows(n),
    {
        self.with_entries(
            self.entries.update(
                self.resolve(n),
                EntryView { description, status: EntryStatus::New },
            ),
        )
    }

    /// The list without entry `n` of the filtered view.
    pub open spec fn remove(self, n: int) -> StateView
        recommends
            self.shows(n),
    {
        self.with_entries(self.entries.remove(self.resolve(n)))
    }

    /// Every entry that the filter shows and that is not being edited,
    /// marked completed or not completed.
    pub open spec fn toggle_all(self, completed: bool) -> StateView {
        self.with_entries(
            self.entries.map_values(|entry: EntryView| bulk_marked(entry, self.filter, completed)),
        )
    }

    /// The list without its completed entries, whatever the filter.
    pub open spec fn clear_completed(self) -> StateView {
        self.with_entries(filtered(self.entries, FilterView::Active))
    }

    /// Whether a search is running, that is whether a backup is held.
    pub open spec fn searching(self) -> bool {
        self.backup.len() > 0
    }

    /// The state after a search for `needle` is committed, the needle taken
    /// as it is.
    ///
    /// An empty needle ends the search: the entries come back from the
    /// backup, if there is one. Any other needle narrows the entries that
    /// are there now to those it is found in, after a backup of them is
    /// taken, unless one is held already.
    pub open spec fn commit_search(self, needle: Seq<char>) -> StateView {
        if needle.len() == 0 {
            if self.searching() {
                StateView { entries: self.backup, backup: Seq::empty(), ..self }
            } else {
                self
            }
        } else {
            StateView {
                entries: filtered(self.entries, FilterView::Search(needle)),
                backup: if self.searching() {
                    self.backup
                } else {
                    self.entries
                },
                ..self
            }
        }
    }

    /// The state after a search for `text` is committed: the text counts
    /// without the whitespace around it.
    pub open spec fn search(self, text: Seq<char>) -> StateView {
        self.commit_search(trimmed(text))
    }
}

} // verus!
