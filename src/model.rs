//! The list's whole state and the function that applies one message to it.
use vstd::prelude::*;

use crate::todo::{Msg, Todo, TodoState};

verus! {

/// What the list holds, as mathematical values.
pub struct ModelState {
    /// The pending text of a new item.
    pub input: Seq<char>,
    /// The pending text of the item being edited.
    pub edit_input: Seq<char>,
    /// The items, in order; an item is known by its position.
    pub todos: Seq<TodoState>,
}

impl ModelState {
    /// The state with nothing typed and no items.
    pub open spec fn empty() -> ModelState {
        ModelState { input: Seq::empty(), edit_input: Seq::empty(), todos: Seq::empty() }
    }

    /// The same state with other items.
    pub open spec fn with_todos(self, todos: Seq<TodoState>) -> ModelState {
        ModelState { input: self.input, edit_input: self.edit_input, todos }
    }

    /// The state after one message. A message whose condition fails
    /// (empty text, index out of range) leaves the state as it is.
    pub open spec fn step(self, msg: Msg) -> ModelState {
        match msg {
            Msg::Add => if self.input.len() > 0 {
                ModelState {
                    input: Seq::empty(),
                    edit_input: self.edit_input,
                    todos: self.todos.push(TodoState { text: self.input, edit: false }),
                }
            } else {
                self
            },
            Msg::Update(s) => ModelState {
                input: s@,
                edit_input: self.edit_input,
                todos: self.todos,
            },
            Msg::Remove(i) => if i < self.todos.len() {
                self.with_todos(self.todos.remove(i as int))
            } else {
                self
            },
            Msg::RemoveAll => self.with_todos(Seq::empty()),
            Msg::UpdateEdit(s) => ModelState {
                input: self.input,
                edit_input: s@,
                todos: self.todos,
            },
            Msg::Edit(i) => if self.edit_input.len() > 0 && i < self.todos.len() {
                ModelState {
                    input: self.input,
                    edit_input: Seq::empty(),
                    todos: self.todos.update(
                        i as int,
                        TodoState { text: self.edit_input, edit: false },
                    ),
                }
            } else {
                self
            },
            Msg::Toggle(i) => if i < self.todos.len() {
                let t = self.todos[i as int];
                let flipped = TodoState { text: t.text, edit: !t.edit };
                ModelState {
                    input: self.input,
                    edit_input: if flipped.edit {
                        t.text
                    } else {
                        self.edit_input
                    },
                    todos: self.todos.update(i as int, flipped),
                }
            } else {
                self
            },
            Msg::Nothing => self,
        }
    }
}

/// Toggling the same item twice gives every item back as it was. The
/// first toggle of an item not in edit mode puts it in edit mode and copies
/// its text into the edit buffer; the second, which leaves edit mode, keeps
/// the edit buffer as the first one left it.
pub proof fn lemma_toggle_twice(m: ModelState, i: usize)
    requires
        i < m.todos.len(),
    ensures
        m.step(Msg::Toggle(i)).step(Msg::Toggle(i)).todos == m.todos,
        m.step(Msg::Toggle(i)).todos[i as int].edit == !m.todos[i as int].edit,
        !m.todos[i as int].edit ==> m.step(Msg::Toggle(i)).edit_input == m.todos[i as int].text,
        !m.todos[i as int].edit ==> m.step(Msg::Toggle(i)).step(Msg::Toggle(i)).edit_input
            == m.step(Msg::Toggle(i)).edit_input,
{
    let once = m.step(Msg::Toggle(i));
    assert(once.step(Msg::Toggle(i)).todos =~= m.todos);
}

/// The todo list: pending input, edit buffer and the items.
pub struct Model {
    input: String,
    edit_input: String,
    todos: Vec<Todo>,
}

impl View for Model {
    type V = ModelState;

    closed spec fn view(&self) -> ModelState {
        ModelState {
            input: self.input@,
            edit_input: self.edit_input@,
            todos: self.todos@.map_values(|t: Todo| t@),
        }
    }
}

impl Model {
    /// An empty list with nothing typed.
    pub fn create() -> (r: Model)
        ensures
            r@ == ModelState::empty(),
    {
        let r = Model { input: String::new(), edit_input: String::new(), todos: Vec::new() };
        assert(r@.todos =~= Seq::<TodoState>::empty());
        r
    }

    /// The pending text of a new item.
    pub fn input(&self) -> (r: &str)
        ensures
            r@ == self@.input,
    {
        self.input.as_str()
    }

    /// The pending text of the item being edited.
    pub fn edit_input(&self) -> (r: &str)
        ensures
            r@ == self@.edit_input,
    {
        self.edit_input.as_str()
    }

    /// The items, in order.
    pub fn todos(&self) -> (r: &[Todo])
        ensures
            r@.map_values(|t: Todo| t@) == self@.todos,
    {
        self.todos.as_slice()
    }

    /// Applies one message. Every message asks for the list to be drawn
    /// again, so the result is always `true`.
    pub fn update(&mut self, msg: Msg) -> (r: bool)
        ensures
            r,
            final(self)@ == old(self)@.step(msg),
            msg is Add && old(self)@.input.len() == 0 ==> final(self)@.todos == old(self)@.todos,
            msg is Add && old(self)@.input.len() > 0 ==> {
                &&& final(self)@.todos == old(self)@.todos.push(
                    TodoState { text: old(self)@.input, edit: false },
                )
                &&& final(self)@.input.len() == 0
            },
            msg is Remove && msg->Remove_0 >= old(self)@.todos.len() ==> final(self)@.todos
                == old(self)@.todos,
            msg is Remove && msg->Remove_0 < old(self)@.todos.len() ==> {
                &&& final(self)@.todos.len() == old(self)@.todos.len() - 1
                &&& forall|j: int|
                    0 <= j < msg->Remove_0 ==> final(self)@.todos[j] == old(self)@.todos[j]
                &&& forall|j: int|
                    msg->Remove_0 <= j < final(self)@.todos.len() ==> final(self)@.todos[j]
                        == old(self)@.todos[j + 1]
            },
            msg is RemoveAll ==> final(self)@.todos.len() == 0,
            msg is Edit && old(self)@.edit_input.len() == 0 ==> final(self)@.todos
                == old(self)@.todos,
            msg is Edit && old(self)@.edit_input.len() > 0 && msg->Edit_0 < old(
                self,
            )@.todos.len() ==> {
                &&& final(self)@.todos[msg->Edit_0 as int] == (TodoState {
                    text: old(self)@.edit_input,
                    edit: false,
                })
                &&& final(self)@.edit_input.len() == 0
            },
    {
        let ghost pre = self@;
        match msg {
            Msg::Add => {
                if !self.input.as_str().is_empty() {
                    let todo = Todo { text: self.input.clone(), edit: false };
                    self.todos.push(todo);
                    self.input = String::new();
                    assert(self@.todos =~= pre.todos.push(TodoState { text: pre.input, edit: false }));
                }
            },
            Msg::Update(s) => {
                self.input = s;
            },
            Msg::Remove(i) => {
                if i < self.todos.len() {
                    self.todos.remove(i);
                    assert(self@.todos =~= pre.todos.remove(i as int));
                }
            },
            Msg::RemoveAll => {
                self.todos.clear();
                assert(self@.todos =~= Seq::<TodoState>::empty());
            },
            Msg::UpdateEdit(s) => {
                self.edit_input = s;
            },
            Msg::Edit(i) => {
                if !self.edit_input.as_str().is_empty() && i < self.todos.len() {
                    self.todos.set(i, Todo { text: self.edit_input.clone(), edit: false });
                    self.edit_input = String::new();
                    assert(self@.todos =~= pre.todos.update(
                        i as int,
                        TodoState { text: pre.edit_input, edit: false },
                    ));
                }
            },
            Msg::Toggle(i) => {
                if i < self.todos.len() {
                    let edit = !self.todos[i].edit;
                    let text = self.todos[i].text.clone();
                    if edit {
                        self.edit_input = text.clone();
                    }
                    self.todos.set(i, Todo { text, edit });
                    assert(self@.todos =~= pre.todos.update(
                        i as int,
                        TodoState { text: pre.todos[i as int].text, edit },
                    ));
                }
            },
            Msg::Nothing => {},
        }
        true
    }
}

} // verus!
