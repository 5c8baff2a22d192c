//! One task of the list: a line of text and where it stands in its life.

use vstd::prelude::*;

verus! {

/// Where an entry stands. Exactly one of the three holds at any time.
#[derive(Clone, Copy, Debug, PartialEq, Eq, Structural)]
pub enum EntryStatus {
    New,
    Completed,
    Editing,
}

impl EntryStatus {
    /// The status after the completion checkbox is clicked: `New` and
    /// `Completed` trade places, an entry that is being edited stays as it is.
    pub open spec fn toggled(self) -> EntryStatus {
        match self {
            EntryStatus::New => EntryStatus::Completed,
            EntryStatus::Completed => EntryStatus::New,
            EntryStatus::Editing => EntryStatus::Editing,
        }
    }

    /// The status after edit mode is switched: `New` and `Editing` trade
    /// places, a completed entry cannot enter edit mode.
    pub open spec fn edit_toggled(self) -> EntryStatus {
        match self {
            EntryStatus::New => EntryStatus::Editing,
            EntryStatus::Editing => EntryStatus::New,
            EntryStatus::Completed => EntryStatus::Completed,
        }
    }

    /// The status that a bulk toggle gives to an entry it reaches.
    pub open spec fn marked(completed: bool) -> EntryStatus {
        if completed {
            EntryStatus::Completed
        } else {
            EntryStatus::New
        }
    }

    /// Flips between `New` and `Completed`.
    pub fn toggle(self) -> (r: EntryStatus)
        ensures
            r == self.toggled(),
    {
        match self {
            EntryStatus::New => EntryStatus::Completed,
            EntryStatus::Completed => EntryStatus::New,
            EntryStatus::Editing => EntryStatus::Editing,
        }
    }

    /// Flips between `New` and `Editing`.
    pub fn toggle_edit(self) -> (r: EntryStatus)
        ensures
            r == self.edit_toggled(),
    {
        match self {
            EntryStatus::New => EntryStatus::Editing,
            EntryStatus::Editing => EntryStatus::New,
            EntryStatus::Completed => EntryStatus::Completed,
        }
    }
}

/// The mathematical value of an [`Entry`]: its text as a sequence of
/// characters, and its status.
pub struct EntryView {
    pub description: Seq<char>,
    pub status: EntryStatus,
}

/// One task: user-supplied text, which may be empty, and a status.
#[derive(Debug)]
pub struct Entry {
    pub description: String,
    pub status: EntryStatus,
}

impl View for Entry {
    type V = EntryView;

    open spec fn view(&self) -> EntryView {
        EntryView { description: self.description@, status: self.status }
    }
}

/// The entries of a list as mathematical values, in their order.
pub open spec fn entry_views(entries: Seq<Entry>) -> Seq<EntryView> {
    entries.map_values(|entry: Entry| entry@)
}

impl Clone for Entry {
    fn clone(&self) -> (r: Entry)
        ensures
            r@ == self@,
    {
        Entry { description: self.description.clone(), status: self.status }
    }
}

impl PartialEq for Entry {
    fn eq(&self, other: &Entry) -> (r: bool) {
        self.description == other.description && self.status == other.status
    }
}

impl Eq for Entry {

}

impl vstd::std_specs::cmp::PartialEqSpecImpl for Entry {
    open spec fn obeys_eq_spec() -> bool {
        true
    }

    open spec fn eq_spec(&self, other: &Entry) -> bool {
        self@ == other@
    }
}

impl Entry {
    /// A fresh entry with the given text, in status `New`.
    pub fn new(description: String) -> (r: Entry)
        ensures
            r@ == (EntryView { description: description@, status: EntryStatus::New }),
    {
        Entry { description, status: EntryStatus::New }
    }
}

} // verus!
