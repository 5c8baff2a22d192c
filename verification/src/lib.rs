//! The engine of a task list in the manner of TodoMVC: entries that a user
//! adds, edits, completes, filters, searches and removes.
//!
//! The store keeps the entries in insertion order. What the user sees is
//! the filtered view, the entries that the filter in force lets through, and
//! every operation on a single entry names it by its index in that view.
//! A search narrows the entries themselves and keeps a backup, from which
//! they come back when the search is cleared.
//!
//! [`model`] says what each operation does, as a function on mathematical
//! values; [`state`] holds the executable store, each of whose operations is
//! proved to do what the model says; [`laws`] proves what follows for the
//! operations taken together. [`app`] and [`entries`] turn the messages of a
//! user interface into operations. [`pattern`] is the boundary to the
//! `regex` crate, which decides what a search finds.

pub mod app;
pub mod entries;
pub mod entry;
pub mod filter;
pub mod laws;
pub mod markup;
pub mod model;
pub mod pattern;
pub mod selection;
pub mod state;
