//! The messages of the list as a whole: what the input line, the filter
//! links, the bulk buttons and the search box send, and what each does to
//! the store.

use crate::entry::entry_views;
pub use crate::entry::{Entry, EntryStatus};
pub use crate::filter::Filter;
use crate::filter::FilterView;
use crate::model::{fresh_entries, StateView};
pub use crate::state::State;
use vstd::prelude::*;

verus! {

/// What the user can ask of the list as a whole.
#[derive(Debug)]
pub enum Msg {
    /// Add the drafted text as a new entry.
    Add,
    /// The draft of the next entry has changed.
    Update(String),
    /// Show what this filter lets through.
    SetFilter(Filter),
    /// Complete everything shown, or reopen it if all of it is completed.
    ToggleAll,
    /// Remove the completed entries.
    ClearCompleted,
    /// The text in the search box has changed.
    UpdateSearch(String),
    /// Commit the text in the search box.
    Search,
    /// Nothing: a key press without meaning.
    Nope,
}

/// The mathematical value of a [`Msg`].
pub enum MsgView {
    Add,
    Update(Seq<char>),
    SetFilter(FilterView),
    ToggleAll,
    ClearCompleted,
    UpdateSearch(Seq<char>),
    Search,
    Nope,
}

impl View for Msg {
    type V = MsgView;

    open spec fn view(&self) -> MsgView {
        match self {
            Msg::Add => MsgView::Add,
            Msg::Update(val) => MsgView::Update(val@),
            Msg::SetFilter(filter) => MsgView::SetFilter(filter@),
            Msg::ToggleAll => MsgView::ToggleAll,
            Msg::ClearCompleted => MsgView::ClearCompleted,
            Msg::UpdateSearch(val) => MsgView::UpdateSearch(val@),
            Msg::Search => MsgView::Search,
            Msg::Nope => MsgView::Nope,
        }
    }
}

/// The state that a message leads to.
///
/// `Add` appends the draft as a new entry and empties the draft. `ToggleAll`
/// completes what is shown, unless all of it is completed already: then it
/// reopens it. `Search` commits the text of the search box, which stays in
/// the box.
pub open spec fn step(state: StateView, msg: MsgView) -> StateView {
    match msg {
        MsgView::Add => StateView { value: Seq::empty(), ..state.add(state.value) },
        MsgView::Update(val) => StateView { value: val, ..state },
        MsgView::SetFilter(filter) => StateView { filter, ..state },
        MsgView::ToggleAll => state.toggle_all(!state.is_all_completed()),
        MsgView::ClearCompleted => state.clear_completed(),
        MsgView::UpdateSearch(val) => StateView { search_value: val, ..state },
        MsgView::Search => state.search(state.search_value),
        MsgView::Nope => state,
    }
}

/// Applies a message to the store. The answer says whether the list is to
/// be drawn again, which it always is; after every message the caller stores
/// the entries as they then are.
pub fn update(state: &mut State, msg: Msg) -> (render: bool)
    ensures
        final(state)@ == step(old(state)@, msg@),
        render,
{
    match msg {
        Msg::Add => {
            let description = state.value.clone();
            state.add(description);
            state.value = String::new();
        },
        Msg::Update(val) => {
            state.value = val;
        },
        Msg::SetFilter(filter) => {
            state.filter = filter;
        },
        Msg::ToggleAll => {
            let status = !state.is_all_completed();
            state.toggle_all(status);
        },
        Msg::ClearCompleted => {
            state.clear_completed();
        },
        Msg::UpdateSearch(val) => {
            state.search_value = val;
        },
        Msg::Search => {
            let search_value = state.search_value.clone();
            state.search_todos(search_value);
        },
        Msg::Nope => {},
    }
    true
}

/// The texts of a list of strings as mathematical values, in their order.
pub open spec fn texts(strings: Seq<String>) -> Seq<Seq<char>> {
    strings.map_values(|string: String| string@)
}

/// The entries that stand in for a list that could not be restored: one new
/// entry for each of `descriptions`, in their order.
pub fn generate_random_todos(descriptions: Vec<String>) -> (entries: Vec<Entry>)
    ensures
        entry_views(entries@) == fresh_entries(texts(descriptions@)),
{
    let ghost wanted = fresh_entries(texts(descriptions@));
    let mut entries: Vec<Entry> = Vec::new();
    let mut i: usize = 0;
    while i < descriptions.len()
        invariant
            wanted == fresh_entries(texts(descriptions@)),
            0 <= i <= descriptions.len(),
            entries.len() == i,
            forall|n: int| 0 <= n < i ==> (#[trigger] entries[n])@ == wanted[n],
        decreases descriptions.len() - i,
    {
        let entry = Entry::new(descriptions[i].clone());
        entries.push(entry);
        i = i + 1;
    }
    assert(entry_views(entries@) =~= wanted);
    entries
}

/// The store at start-up: it holds the entries that were restored, if there
/// are any to restore, and stand-ins made of `descriptions` otherwise. It
/// shows all entries, runs no search, and its text buffers are empty.
pub fn create(restored: Option<Vec<Entry>>, descriptions: Vec<String>) -> (state: State)
    ensures
        state@ == StateView::initial(
            match restored {
                Some(entries) => entry_views(entries@),
                None => fresh_entries(texts(descriptions@)),
            },
        ),
{
    let entries = match restored {
        Some(entries) => entries,
        None => generate_random_todos(descriptions),
    };
    State::new(entries)
}

} // verus!
