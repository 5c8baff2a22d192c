//! Laws of the store: what holds of the operations of [`crate::model`]
//! taken together, for every state. The operations of [`crate::state`]
//! follow the model, so the laws hold of the executable store too.

use crate::entry::{EntryStatus, EntryView};
use crate::filter::FilterView;
use crate::model::{bulk_marked, StateView};
use crate::selection::{
    filtered, lemma_all_shows_everything, lemma_filtered_empty, lemma_none_fit, lemma_positions,
    lemma_same_verdicts, positions,
};
use crate::pattern::trimmed;
use vstd::prelude::*;

verus! {

/// The state after one entry is added for each of `descriptions`, in order.
pub open spec fn add_all(state: StateView, descriptions: Seq<Seq<char>>) -> StateView
    decreases descriptions.len(),
{
    if descriptions.len() == 0 {
        state
    } else {
        add_all(state, descriptions.drop_last()).add(descriptions.last())
    }
}

/// Every `add` counts: after any run of adds the total has grown by the
/// number of adds, so a store that started empty holds exactly as many
/// entries as were added.
pub proof fn law_total_counts_adds(state: StateView, descriptions: Seq<Seq<char>>)
    ensures
        add_all(state, descriptions).total() == state.total() + descriptions.len(),
        state.total() == 0 ==> add_all(state, descriptions).total() == descriptions.len(),
    decreases descriptions.len(),
{
    if descriptions.len() > 0 {
        law_total_counts_adds(state, descriptions.drop_last());
    }
}

/// `toggle` undoes itself: toggling the same index of the filtered view
/// twice, with nothing in between, gives the state back.
///
/// This is so where the first toggle leaves the entry in the view, at its
/// index: under a filter that does not ask for the status, and for an entry
/// in edit mode, which no toggle changes. Under `Active` or `Completed` a
/// toggled entry leaves the view, and the second toggle meets another entry
/// or none.
pub proof fn law_toggle_twice(state: StateView, n: int)
    requires
        state.shows(n),
        !state.filter.reads_status() || state.entries[state.resolve(n)].status
            == EntryStatus::Editing,
    ensures
        state.toggle(n).shows(n),
        state.toggle(n).resolve(n) == state.resolve(n),
        state.toggle(n).toggle(n) == state,
{
    let once = state.toggle(n);
    lemma_positions(state.entries, state.filter);
    assert forall|i: int| 0 <= i < state.entries.len() implies state.filter.fits(
        #[trigger] state.entries[i],
    ) == state.filter.fits(once.entries[i]) by {}
    lemma_same_verdicts(state.entries, once.entries, state.filter);
    lemma_positions(once.entries, once.filter);
    assert(once.toggle(n).entries =~= state.entries);
}

/// Under the filter `All` an index in the filtered view is an index in the
/// list: `remove` deletes the entry at that very place, and the entries
/// behind it move up by one.
pub proof fn law_remove_under_all(state: StateView, n: int)
    requires
        state.filter is All,
        0 <= n < state.entries.len(),
    ensures
        state.shows(n),
        state.resolve(n) == n,
        state.remove(n).entries == state.entries.remove(n),
{
    lemma_all_shows_everything(state.entries);
}

/// After `clear_completed` no completed entry is left.
pub proof fn law_clear_leaves_none_completed(state: StateView)
    ensures
        state.clear_completed().total_completed() == 0,
{
    let kept = filtered(state.entries, FilterView::Active);
    lemma_positions(state.entries, FilterView::Active);
    lemma_none_fit(kept, FilterView::Completed);
}

/// Where the filter shows nothing, not everything is completed.
pub proof fn law_nothing_shown_not_all_completed(state: StateView)
    requires
        state.filtered().len() == 0,
    ensures
        !state.is_all_completed(),
{
}

/// After `toggle_all(true)` everything that the filter shows is completed,
/// provided that it showed something and nothing in edit mode.
///
/// This is so under every filter but `Active`: there the entries that were
/// marked completed leave the view, which is then empty.
pub proof fn law_toggle_all_completes(state: StateView)
    requires
        state.filtered().len() > 0,
        forall|n: int|
            0 <= n < state.filtered().len() ==> (#[trigger] state.filtered()[n]).status
                != EntryStatus::Editing,
        !(state.filter is Active),
    ensures
        state.toggle_all(true).is_all_completed(),
{
    let after = state.toggle_all(true);
    let filter = state.filter;
    lemma_positions(state.entries, filter);
    assert forall|i: int| 0 <= i < state.entries.len() implies filter.fits(
        #[trigger] state.entries[i],
    ) == filter.fits(after.entries[i]) by {}
    lemma_same_verdicts(state.entries, after.entries, filter);
    lemma_positions(after.entries, filter);
    assert forall|n: int| 0 <= n < after.filtered().len() implies (#[trigger] after.filtered()[n]).status
        == EntryStatus::Completed by {
        let at = positions(state.entries, filter)[n];
        assert(state.filtered()[n] == state.entries[at]);
        assert(after.filtered()[n] == bulk_marked(state.entries[at], filter, true));
    }
}

/// `complete_edit` always leaves its entry in status `New`, with the new
/// text, whatever the status was: no edit ends in edit mode.
pub proof fn law_complete_edit_leaves_new(state: StateView, n: int, description: Seq<char>)
    requires
        state.shows(n),
    ensures
        0 <= state.resolve(n) < state.entries.len(),
        state.complete_edit(n, description).entries[state.resolve(n)] == (EntryView {
            description,
            status: EntryStatus::New,
        }),
{
    lemma_positions(state.entries, state.filter);
}

/// A search that is committed and then cleared gives the entries back as
/// they were, in their order, and holds no backup any more.
pub proof fn law_search_then_clear_restores(state: StateView, needle: Seq<char>)
    requires
        !state.searching(),
        needle.len() > 0,
    ensures
        state.commit_search(needle).commit_search(Seq::empty()).entries == state.entries,
        !state.commit_search(needle).commit_search(Seq::empty()).searching(),
{
    if state.entries.len() == 0 {
        lemma_filtered_empty(FilterView::Search(needle));
    }
}

/// While a search runs, further searches narrow what is shown and leave the
/// backup alone: it still holds the entries from before the first search.
pub proof fn law_search_keeps_first_backup(state: StateView, needle: Seq<char>)
    requires
        state.searching(),
        needle.len() > 0,
    ensures
        state.commit_search(needle).backup == state.backup,
        state.commit_search(needle).entries == filtered(
            state.entries,
            FilterView::Search(needle),
        ),
{
}

/// Only a committed search touches the backup: every other message of the
/// list as a whole, and every message of a single entry, leaves it as it
/// is. So a store that runs no search holds no backup until one is
/// committed.
pub proof fn law_backup_changes_by_search_only(
    state: StateView,
    msg: crate::app::MsgView,
    entry_msg: crate::entries::MsgView,
)
    ensures
        !(msg is Search) ==> crate::app::step(state, msg).backup == state.backup,
        crate::entries::step(state, entry_msg).backup == state.backup,
{
}

/// A search that is committed with a text of whitespace alone leaves no
/// backup behind, whatever went before.
pub proof fn law_blank_search_ends_session(state: StateView, blank: Seq<char>)
    requires
        trimmed(blank).len() == 0,
    ensures
        !state.search(blank).searching(),
{
}

} // verus!
