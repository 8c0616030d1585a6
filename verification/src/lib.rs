//! A personal task list: short text items that can be added, removed, marked
//! done or important, and listed.
//!
//! The library decides; it performs no input or output. Callers read the files,
//! hand their contents in, and write out what the library returns.
//!
//! - [`todo`]: the task record, the ordered collection, and the operations on it.
//! - [`location`]: where the data file lives, and the pointer file that says so.
//! - [`manager`]: the store, one load, change and save for each operation.
//! - [`listing`]: the lines of a listing.
//! - [`command`]: which action an invocation asks for.
//! - [`laws`]: what holds of the operations, whatever the collection contains.

pub mod command;
pub mod laws;
pub mod listing;
pub mod location;
pub mod manager;
pub mod todo;

pub use crate::manager::TodoManager;
