//! Filters: which entries of the list are shown and acted upon.

use crate::entry::{Entry, EntryStatus, EntryView};
use crate::pattern::{search_hits, Needle};
use vstd::prelude::*;

verus! {

/// A choice of entries. `Search` carries the text that is searched for.
#[derive(Debug)]
pub enum Filter {
    All,
    Search(String),
    Active,
    Completed,
}

/// The mathematical value of a [`Filter`].
pub enum FilterView {
    All,
    Search(Seq<char>),
    Active,
    Completed,
}

impl FilterView {
    /// Whether the filter lets `entry` through.
    ///
    /// `All` takes every entry, `Active` those that are new or being edited,
    /// `Completed` those that are completed, and `Search` those in whose
    /// description the search text is found, whatever the case of the
    /// letters.
    pub open spec fn fits(self, entry: EntryView) -> bool {
        match self {
            FilterView::All => true,
            FilterView::Active => {
                entry.status == EntryStatus::New || entry.status == EntryStatus::Editing
            },
            FilterView::Completed => entry.status == EntryStatus::Completed,
            FilterView::Search(text) => search_hits(text, entry.description),
        }
    }

    /// Whether the verdict on an entry can change with the entry's status.
    pub open spec fn reads_status(self) -> bool {
        self is Active || self is Completed
    }

    /// The address of the link that selects the filter.
    pub open spec fn href(self) -> Seq<char> {
        match self {
            FilterView::All => "#/"@,
            FilterView::Active => "#/active"@,
            FilterView::Completed => "#/completed"@,
            FilterView::Search(_) => "#/search"@,
        }
    }
}

impl View for Filter {
    type V = FilterView;

    open spec fn view(&self) -> FilterView {
        match self {
            Filter::All => FilterView::All,
            Filter::Search(text) => FilterView::Search(text@),
            Filter::Active => FilterView::Active,
            Filter::Completed => FilterView::Completed,
        }
    }
}

impl Clone for Filter {
    fn clone(&self) -> (r: Filter)
        ensures
            r@ == self@,
    {
        match self {
            Filter::All => Filter::All,
            Filter::Search(text) => Filter::Search(text.clone()),
            Filter::Active => Filter::Active,
            Filter::Completed => Filter::Completed,
        }
    }
}

impl PartialEq for Filter {
    fn eq(&self, other: &Filter) -> (r: bool) {
        match (self, other) {
            (Filter::All, Filter::All) => true,
            (Filter::Search(mine), Filter::Search(theirs)) => *mine == *theirs,
            (Filter::Active, Filter::Active) => true,
            (Filter::Completed, Filter::Completed) => true,
            _ => false,
        }
    }
}

impl Eq for Filter {

}

impl vstd::std_specs::cmp::PartialEqSpecImpl for Filter {
    open spec fn obeys_eq_spec() -> bool {
        true
    }

    open spec fn eq_spec(&self, other: &Filter) -> bool {
        self@ == other@
    }
}

/// A filter made ready for a pass over the list: the text of a search is
/// compiled once, not once for each entry.
pub enum Matcher {
    All,
    Search(Needle),
    Active,
    Completed,
}

impl Matcher {
    /// The filter that this matcher decides for.
    pub open spec fn filter(&self) -> FilterView {
        match self {
            Matcher::All => FilterView::All,
            Matcher::Search(needle) => FilterView::Search(needle.text()),
            Matcher::Active => FilterView::Active,
            Matcher::Completed => FilterView::Completed,
        }
    }

    /// Decides whether `entry` belongs to what the filter shows.
    pub fn fit(&self, entry: &Entry) -> (r: bool)
        ensures
            r == self.filter().fits(entry@),
    {
        match self {
            Matcher::All => true,
            Matcher::Active => {
                entry.status == EntryStatus::New || entry.status == EntryStatus::Editing
            },
            Matcher::Completed => entry.status == EntryStatus::Completed,
            Matcher::Search(needle) => needle.hits(entry.description.as_str()),
        }
    }
}

impl Filter {
    /// Makes this filter ready for a pass over the list.
    pub fn matcher(&self) -> (matcher: Matcher)
        ensures
            matcher.filter() == self@,
    {
        match self {
            Filter::All => Matcher::All,
            Filter::Search(text) => Matcher::Search(Needle::new(text.as_str())),
            Filter::Active => Matcher::Active,
            Filter::Completed => Matcher::Completed,
        }
    }

    /// Decides whether `entry` belongs to what this filter shows.
    pub fn fit(&self, entry: &Entry) -> (r: bool)
        ensures
            r == self@.fits(entry@),
    {
        self.matcher().fit(entry)
    }

    /// The address of the link that selects this filter. Every search has
    /// the same address, whatever its text.
    pub fn href(&self) -> (address: &'static str)
        ensures
            address@ == self@.href(),
    {
        match self {
            Filter::All => "#/",
            Filter::Active => "#/active",
            Filter::Completed => "#/completed",
            Filter::Search(_) => "#/search",
        }
    }
}

} // verus!
