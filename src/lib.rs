//! An in-memory todo list: a list of text items that can be added, edited
//! in place, removed one by one or cleared, driven by one message at a time.
pub mod model;
pub mod todo;

pub use model::{Model, ModelState};
pub use todo::{Msg, Todo, TodoState};
