//! The store: the entries, the backup that a search keeps of them, the
//! filter in force and the text buffers, with the operations on them.
//!
//! Operations that name an entry take its index in the filtered view, the
//! list as the user sees it, and resolve it to the entry's place in the full
//! list by a scan. No resolved index is kept between operations.

use crate::entry::{entry_views, Entry, EntryStatus};
use crate::filter::{Filter, FilterView};
use crate::model::{bulk_marked, StateView};
use crate::pattern::needle_of;
use crate::selection::{
    filtered, filtered_view, lemma_filtered_empty, lemma_filtered_take, lemma_shown_stays, resolve,
    IndexOutOfRange,
};
use vstd::prelude::*;

verus! {

/// The state of the store.
#[derive(Debug)]
pub struct State {
    /// The entries, in insertion order.
    pub entries: Vec<Entry>,
    /// The entries as they were before the running search narrowed them;
    /// empty when no search is running.
    pub entries_bkp: Vec<Entry>,
    /// The filter in force.
    pub filter: Filter,
    /// The text typed for the next entry.
    pub value: String,
    /// The text typed in the edit box.
    pub edit_value: String,
    /// The text typed in the search box.
    pub search_value: String,
}

impl View for State {
    type V = StateView;

    open spec fn view(&self) -> StateView {
        StateView {
            entries: entry_views(self.entries@),
            backup: entry_views(self.entries_bkp@),
            filter: self.filter@,
            value: self.value@,
            edit_value: self.edit_value@,
            search_value: self.search_value@,
        }
    }
}

impl State {
    /// A store that holds `entries`, shows all of them, runs no search and
    /// has empty text buffers.
    pub fn new(entries: Vec<Entry>) -> (state: State)
        ensures
            state@ == StateView::initial(entry_views(entries@)),
    {
        let state = State {
            entries,
            entries_bkp: Vec::new(),
            filter: Filter::All,
            value: String::new(),
            edit_value: String::new(),
            search_value: String::new(),
        };
        assert(entry_views(state.entries_bkp@) =~= Seq::empty());
        state
    }

    /// Finds the place in the full list of entry `idx` of the filtered view.
    pub fn resolve(&self, idx: usize) -> (r: Result<usize, IndexOutOfRange>)
        ensures
            self@.shows(idx as int) ==> r == Ok::<usize, IndexOutOfRange>(
                self@.resolve(idx as int) as usize,
            ) && 0 <= self@.resolve(idx as int) < self.entries.len(),
            !self@.shows(idx as int) ==> r == Err::<usize, IndexOutOfRange>(
                IndexOutOfRange { index: idx, shown: self@.filtered().len() as usize },
            ),
    {
        resolve(&self.filter, &self.entries, idx)
    }

    /// The filtered view: copies of the entries that the filter in force
    /// shows, in their order.
    pub fn filtered_view(&self) -> (shown: Vec<Entry>)
        ensures
            entry_views(shown@) == self@.filtered(),
    {
        filtered_view(&self.filter, &self.entries)
    }

    /// The number of entries, whatever the filter.
    pub fn total(&self) -> (n: usize)
        ensures
            n == self@.total(),
    {
        self.entries.len()
    }

    /// The number of completed entries, whatever the filter.
    pub fn total_completed(&self) -> (n: usize)
        ensures
            n == self@.total_completed(),
    {
        let ghost all = self@.entries;
        let mut n: usize = 0;
        let mut i: usize = 0;
        proof {
            assert(all.take(0) =~= Seq::empty());
            lemma_filtered_empty(FilterView::Completed);
        }
        while i < self.entries.len()
            invariant
                all == self@.entries,
                0 <= i <= self.entries.len(),
                n == filtered(all.take(i as int), FilterView::Completed).len(),
                n <= i,
            decreases self.entries.len() - i,
        {
            proof {
                lemma_filtered_take(all, FilterView::Completed, i as int);
            }
            if self.entries[i].status == EntryStatus::Completed {
                n = n + 1;
            }
            i = i + 1;
        }
        proof {
            assert(all.take(i as int) =~= all);
        }
        n
    }

    /// Whether the filtered view is not empty and every entry in it is
    /// completed. With nothing to show the answer is no, so that a box
    /// "all done" is not ticked over an empty list.
    pub fn is_all_completed(&self) -> (r: bool)
        ensures
            r == self@.is_all_completed(),
            self@.filtered().len() == 0 ==> !r,
    {
        let ghost all = self@.entries;
        let ghost filter = self@.filter;
        let matcher = self.filter.matcher();
        let mut shown_any = false;
        let mut i: usize = 0;
        proof {
            assert(all.take(0) =~= Seq::empty());
            lemma_filtered_empty(filter);
        }
        while i < self.entries.len()
            invariant
                all == self@.entries,
                filter == self@.filter,
                matcher.filter() == filter,
                0 <= i <= self.entries.len(),
                shown_any == (filtered(all.take(i as int), filter).len() > 0),
                forall|n: int|
                    0 <= n < filtered(all.take(i as int), filter).len() ==> (#[trigger] filtered(
                        all.take(i as int),
                        filter,
                    )[n]).status == EntryStatus::Completed,
            decreases self.entries.len() - i,
        {
            proof {
                lemma_filtered_take(all, filter, i as int);
            }
            if matcher.fit(&self.entries[i]) {
                if self.entries[i].status != EntryStatus::Completed {
                    proof {
                        let upto = filtered(all.take(i + 1), filter);
                        assert(upto[upto.len() - 1] == all[i as int]);
                        lemma_shown_stays(all, filter, i + 1, upto.len() - 1);
                    }
                    return false;
                }
                shown_any = true;
            }
            i = i + 1;
        }
        proof {
            assert(all.take(i as int) =~= all);
        }
        shown_any
    }

    /// Appends a new entry with the given text. Nothing is checked: the text
    /// may be empty, and it may be there already.
    pub fn add(&mut self, description: String)
        ensures
            final(self)@ == old(self)@.add(description@),
            final(self)@.total() == old(self)@.total() + 1,
    {
        self.entries.push(Entry::new(description));
        assert(entry_views(self.entries@) =~= old(self)@.add(description@).entries);
    }

    /// Flips the completion of entry `idx` of the filtered view: `Completed`
    /// becomes `New`, `New` becomes `Completed`, and an entry that is being
    /// edited stays as it is.
    pub fn toggle(&mut self, idx: usize) -> (r: Result<(), IndexOutOfRange>)
        ensures
            old(self)@.shows(idx as int) ==> r is Ok && final(self)@ == old(self)@.toggle(
                idx as int,
            ),
            !old(self)@.shows(idx as int) ==> final(self)@ == old(self)@ && r == Err::<
                (),
                IndexOutOfRange,
            >(IndexOutOfRange { index: idx, shown: old(self)@.filtered().len() as usize }),
    {
        match self.resolve(idx) {
            Ok(at) => {
                let status = self.entries[at].status.toggle();
                self.entries[at].status = status;
                assert(entry_views(self.entries@) =~= old(self)@.toggle(idx as int).entries);
                Ok(())
            },
            Err(fault) => Err(fault),
        }
    }

    /// Flips the edit mode of entry `idx` of the filtered view: `New` becomes
    /// `Editing`, `Editing` becomes `New`, and a completed entry stays as it
    /// is.
    pub fn toggle_edit(&mut self, idx: usize) -> (r: Result<(), IndexOutOfRange>)
        ensures
            old(self)@.shows(idx as int) ==> r is Ok && final(self)@ == old(self)@.toggle_edit(
                idx as int,
            ),
            !old(self)@.shows(idx as int) ==> final(self)@ == old(self)@ && r == Err::<
                (),
                IndexOutOfRange,
            >(IndexOutOfRange { index: idx, shown: old(self)@.filtered().len() as usize }),
    {
        match self.resolve(idx) {
            Ok(at) => {
                let status = self.entries[at].status.toggle_edit();
                self.entries[at].status = status;
                assert(entry_views(self.entries@) =~= old(self)@.toggle_edit(idx as int).entries);
                Ok(())
            },
            Err(fault) => Err(fault),
        }
    }

    /// Gives entry `idx` of the filtered view the text `val` and the status
    /// `New`, whatever its status was. This is the only way in which the
    /// text of an entry changes, and it always ends the edit.
    pub fn complete_edit(&mut self, idx: usize, val: String) -> (r: Result<(), IndexOutOfRange>)
        ensures
            old(self)@.shows(idx as int) ==> r is Ok && final(self)@ == old(self)@.complete_edit(
                idx as int,
                val@,
            ),
            !old(self)@.shows(idx as int) ==> final(self)@ == old(self)@ && r == Err::<
                (),
                IndexOutOfRange,
            >(IndexOutOfRange { index: idx, shown: old(self)@.filtered().len() as usize }),
    {
        match self.resolve(idx) {
            Ok(at) => {
                self.entries[at] = Entry::new(val);
                assert(entry_views(self.entries@) =~= old(self)@.complete_edit(
                    idx as int,
                    val@,
                ).entries);
                Ok(())
            },
            Err(fault) => Err(fault),
        }
    }

    /// Deletes entry `idx` of the filtered view. The entries behind it move
    /// up by one place; the order of those that stay is kept.
    pub fn remove(&mut self, idx: usize) -> (r: Result<(), IndexOutOfRange>)
        ensures
            old(self)@.shows(idx as int) ==> r is Ok && final(self)@ == old(self)@.remove(
                idx as int,
            ),
            !old(self)@.shows(idx as int) ==> final(self)@ == old(self)@ && r == Err::<
                (),
                IndexOutOfRange,
            >(IndexOutOfRange { index: idx, shown: old(self)@.filtered().len() as usize }),
    {
        match self.resolve(idx) {
            Ok(at) => {
                self.entries.remove(at);
                assert(entry_views(self.entries@) =~= old(self)@.remove(idx as int).entries);
                Ok(())
            },
            Err(fault) => Err(fault),
        }
    }

    /// Marks every entry that the filter shows and that is not being edited
    /// as completed, if `value` is set, and as not completed otherwise.
    /// Entries that the filter hides and entries in edit mode stay as they
    /// are.
    pub fn toggle_all(&mut self, value: bool)
        ensures
            final(self)@ == old(self)@.toggle_all(value),
    {
        let ghost before = old(self)@;
        let matcher = self.filter.matcher();
        let mut i: usize = 0;
        while i < self.entries.len()
            invariant
                before == old(self)@,
                self@.with_entries(before.entries) == before,
                matcher.filter() == before.filter,
                self.entries.len() == before.entries.len(),
                0 <= i <= self.entries.len(),
                forall|n: int|
                    0 <= n < i ==> (#[trigger] self.entries[n])@ == bulk_marked(
                        before.entries[n],
                        before.filter,
                        value,
                    ),
                forall|n: int|
                    i <= n < self.entries.len() ==> (#[trigger] self.entries[n])@
                        == before.entries[n],
            decreases self.entries.len() - i,
        {
            if matcher.fit(&self.entries[i]) && self.entries[i].status != EntryStatus::Editing {
                if value {
                    self.entries[i].status = EntryStatus::Completed;
                } else {
                    self.entries[i].status = EntryStatus::New;
                }
            }
            i = i + 1;
        }
        assert(self@.entries =~= before.toggle_all(value).entries);
    }

    /// Removes every completed entry, whatever the filter: what stays is
    /// what the filter `Active` lets through, in its order.
    pub fn clear_completed(&mut self)
        ensures
            final(self)@ == old(self)@.clear_completed(),
    {
        let entries = filtered_view(&Filter::Active, &self.entries);
        self.entries = entries;
    }

    /// Commits a search for `needle`, taken as it is.
    ///
    /// An empty needle ends the search: the entries come back from the
    /// backup if one is held, and nothing happens otherwise. Any other
    /// needle narrows the entries that are there now to those in whose
    /// description it is found, ignoring case. Before the first narrowing of
    /// a search the entries are backed up; a later search narrows what the
    /// earlier ones left and keeps the backup as it is. A needle that is no
    /// valid pattern finds nothing.
    pub fn commit_search(&mut self, needle: String)
        ensures
            final(self)@ == old(self)@.commit_search(needle@),
    {
        if needle.as_str().is_empty() {
            if self.entries_bkp.len() > 0 {
                std::mem::swap(&mut self.entries, &mut self.entries_bkp);
                self.entries_bkp = Vec::new();
                assert(entry_views(self.entries_bkp@) =~= Seq::empty());
            }
            return ;
        }
        if self.entries_bkp.len() == 0 {
            self.entries_bkp = self.entries.clone();
            assert(entry_views(self.entries_bkp@) =~= entry_views(self.entries@));
        }
        let narrowed = filtered_view(&Filter::Search(needle), &self.entries);
        self.entries = narrowed;
    }

    /// Commits a search for `val`, which counts without the whitespace
    /// around it: a text of whitespace alone ends the search.
    pub fn search_todos(&mut self, val: String)
        ensures
            final(self)@ == old(self)@.search(val@),
    {
        self.commit_search(needle_of(val.as_str()));
    }
}

} // verus!
