//! What the page shows of the state besides the entries themselves: the
//! style classes that follow from a status or a filter.

use crate::entry::EntryStatus;
use crate::filter::{Filter, FilterView};
use vstd::prelude::*;
use vstd::string::StringExecFns;

verus! {

/// The style classes of an entry with the given status.
pub open spec fn entry_class_of(status: EntryStatus) -> Seq<char> {
    match status {
        EntryStatus::New => "todo"@,
        EntryStatus::Editing => "todo"@ + " editing"@,
        EntryStatus::Completed => "todo"@ + " completed"@,
    }
}

/// The style classes of the footer under the given filter.
pub open spec fn footer_class_of(filter: FilterView) -> Seq<char> {
    if filter is Search {
        "footer"@ + " big_footer"@
    } else {
        "footer"@
    }
}

/// The style class of the link to a filter, which tells whether that filter
/// is the one in force.
pub open spec fn link_class_of(selected: bool) -> Seq<char> {
    if selected {
        "selected"@
    } else {
        "not-selected"@
    }
}

/// The style classes of an entry: every entry is a `todo`, and one that is
/// being edited or is completed says so.
pub fn entry_class(status: EntryStatus) -> (class: String)
    ensures
        class@ == entry_class_of(status),
{
    let mut class = String::from_str("todo");
    match status {
        EntryStatus::Editing => {
            class.append(" editing");
        },
        EntryStatus::Completed => {
            class.append(" completed");
        },
        EntryStatus::New => {},
    }
    class
}

/// The style classes of the footer, which grows by the search box while a
/// search filter is selected.
pub fn footer_class(filter: &Filter) -> (class: String)
    ensures
        class@ == footer_class_of(filter@),
{
    let mut class = String::from_str("footer");
    match filter {
        Filter::Search(_) => {
            class.append(" big_footer");
        },
        _ => {},
    }
    class
}

/// The style class of the link to the filter `link` while `current` is in
/// force: the link to the filter in force is marked as selected. Two
/// searches are the same filter only if their texts are the same.
pub fn link_class(current: &Filter, link: &Filter) -> (class: &'static str)
    ensures
        class@ == link_class_of(current@ == link@),
{
    if *current == *link {
        "selected"
    } else {
        "not-selected"
    }
}

} // verus!
