//! The messages of single entries: what the checkbox, the label, the edit
//! box and the delete button of an entry send, and what each does to the
//! store. An entry is named by its index in the filtered view.

use crate::model::StateView;
pub use crate::selection::IndexOutOfRange;
pub use crate::state::State;
use vstd::prelude::*;

verus! {

/// What the user can ask of one entry.
#[derive(Debug)]
pub enum Msg {
    /// Finish the edit of this entry with the text of the edit box.
    Edit(usize),
    /// The text in the edit box has changed.
    UpdateEdit(String),
    /// Delete this entry.
    Remove(usize),
    /// Enter or leave the edit mode of this entry.
    ToggleEdit(usize),
    /// Flip the completion of this entry.
    Toggle(usize),
    /// Nothing: a key press without meaning.
    Nope,
}

/// The mathematical value of a [`Msg`].
pub enum MsgView {
    Edit(int),
    UpdateEdit(Seq<char>),
    Remove(int),
    ToggleEdit(int),
    Toggle(int),
    Nope,
}

impl View for Msg {
    type V = MsgView;

    open spec fn view(&self) -> MsgView {
        match self {
            Msg::Edit(idx) => MsgView::Edit(*idx as int),
            Msg::UpdateEdit(val) => MsgView::UpdateEdit(val@),
            Msg::Remove(idx) => MsgView::Remove(*idx as int),
            Msg::ToggleEdit(idx) => MsgView::ToggleEdit(*idx as int),
            Msg::Toggle(idx) => MsgView::Toggle(*idx as int),
            Msg::Nope => MsgView::Nope,
        }
    }
}

impl MsgView {
    /// Whether the message can be carried out: the entry that it names, if
    /// it names one, is shown.
    pub open spec fn in_range(self, state: StateView) -> bool {
        match self {
            MsgView::Edit(idx) => state.shows(idx),
            MsgView::Remove(idx) => state.shows(idx),
            MsgView::ToggleEdit(idx) => state.shows(idx),
            MsgView::Toggle(idx) => state.shows(idx),
            MsgView::UpdateEdit(_) => true,
            MsgView::Nope => true,
        }
    }

    /// The index that the message names, where it names one.
    pub open spec fn index(self) -> int {
        match self {
            MsgView::Edit(idx) => idx,
            MsgView::Remove(idx) => idx,
            MsgView::ToggleEdit(idx) => idx,
            MsgView::Toggle(idx) => idx,
            MsgView::UpdateEdit(_) => 0,
            MsgView::Nope => 0,
        }
    }
}

/// The state that a message leads to, where it can be carried out.
///
/// `ToggleEdit` copies the text of its entry into the edit box before it
/// switches the edit mode. `Edit` gives its entry the text of the edit box
/// and empties the box.
pub open spec fn step(state: StateView, msg: MsgView) -> StateView {
    match msg {
        MsgView::Edit(idx) => StateView {
            edit_value: Seq::empty(),
            ..state.complete_edit(idx, state.edit_value)
        },
        MsgView::UpdateEdit(val) => StateView { edit_value: val, ..state },
        MsgView::Remove(idx) => state.remove(idx),
        MsgView::ToggleEdit(idx) => StateView {
            edit_value: state.entries[state.resolve(idx)].description,
            ..state.toggle_edit(idx)
        },
        MsgView::Toggle(idx) => state.toggle(idx),
        MsgView::Nope => state,
    }
}

/// Applies a message to the store. On success the answer says whether the
/// list is to be drawn again, which it always is; after every message the
/// caller stores the entries as they then are. A message that names an
/// entry beyond the filtered view fails and changes nothing.
pub fn update(state: &mut State, msg: Msg) -> (r: Result<bool, IndexOutOfRange>)
    ensures
        msg@.in_range(old(state)@) ==> r == Ok::<bool, IndexOutOfRange>(true) && final(state)@
            == step(old(state)@, msg@),
        !msg@.in_range(old(state)@) ==> final(state)@ == old(state)@ && r == Err::<
            bool,
            IndexOutOfRange,
        >(
            IndexOutOfRange {
                index: msg@.index() as usize,
                shown: old(state)@.filtered().len() as usize,
            },
        ),
{
    match msg {
        Msg::ToggleEdit(idx) => {
            match state.resolve(idx) {
                Ok(at) => {
                    state.edit_value = state.entries[at].description.clone();
                    let toggled = state.toggle_edit(idx);
                },
                Err(fault) => {
                    return Err(fault);
                },
            }
        },
        Msg::Toggle(idx) => {
            match state.toggle(idx) {
                Ok(()) => {},
                Err(fault) => {
                    return Err(fault);
                },
            }
        },
        Msg::Edit(idx) => {
            let edit_value = state.edit_value.clone();
            match state.complete_edit(idx, edit_value) {
                Ok(()) => {
                    state.edit_value = String::new();
                },
                Err(fault) => {
                    return Err(fault);
                },
            }
        },
        Msg::UpdateEdit(val) => {
            state.edit_value = val;
        },
        Msg::Remove(idx) => {
            match state.remove(idx) {
                Ok(()) => {},
                Err(fault) => {
                    return Err(fault);
                },
            }
        },
        Msg::Nope => {},
    }
    Ok(true)
}

} // verus!
