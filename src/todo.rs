//! A single todo item and the messages that drive the list.
use vstd::prelude::*;

verus! {

/// What a todo item holds, as mathematical values.
pub struct TodoState {
    pub text: Seq<char>,
    pub edit: bool,
}

/// One entry of the list: its text and whether it is shown as an edit field.
#[derive(Clone, Debug, PartialEq, Eq)]
pub struct Todo {
    pub text: String,
    pub edit: bool,
}

impl View for Todo {
    type V = TodoState;

    open spec fn view(&self) -> TodoState {
        TodoState { text: self.text@, edit: self.edit }
    }
}

/// An event handed to the list, one at a time.
pub enum Msg {
    /// Append the pending input as a new item, unless it is empty.
    Add,
    /// Replace the pending input.
    Update(String),
    /// Delete the item at this index, if there is one.
    Remove(usize),
    /// Write the edit buffer into the item at this index and leave edit mode,
    /// unless the buffer is empty or there is no such item.
    Edit(usize),
    /// Replace the edit buffer.
    UpdateEdit(String),
    /// Flip edit mode of the item at this index; on entering it, the item's
    /// text is copied into the edit buffer.
    Toggle(usize),
    /// Delete every item.
    RemoveAll,
    /// Change nothing.
    Nothing,
}

impl Msg {
    /// The message that a key press in a text field sends: `on_enter` for
    /// the Enter key, `Nothing` for any other key.
    pub fn on_key(key: &str, on_enter: Msg) -> (r: Msg)
        ensures
            key@ == "Enter"@ ==> r == on_enter,
            key@ != "Enter"@ ==> r == Msg::Nothing,
    {
        let pressed: String = key.to_owned();
        let enter: String = "Enter".to_owned();
        if pressed == enter {
            on_enter
        } else {
            Msg::Nothing
        }
    }
}

} // verus!
