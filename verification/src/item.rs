//! The todo record and its mathematical view.

use vstd::prelude::*;

verus! {

/// One task of the list. Items have no identity of their own: an item is
/// known by its position, and two items may hold the same texts.
#[derive(Debug, PartialEq, Eq)]
pub struct TodoItem {
    /// What is to be done; any text, the empty one too.
    pub title: String,
    /// More about the task; any text, the empty one too.
    pub description: String,
    /// Whether the task is finished; `false` when the item is added.
    pub is_done: bool,
}

/// What a [`TodoItem`] holds, with each text as a sequence of characters.
pub ghost struct TodoItemView {
    pub title: Seq<char>,
    pub description: Seq<char>,
    pub is_done: bool,
}

impl View for TodoItem {
    type V = TodoItemView;

    open spec fn view(&self) -> TodoItemView {
        TodoItemView { title: self.title@, description: self.description@, is_done: self.is_done }
    }
}

impl DeepView for TodoItem {
    type V = TodoItemView;

    open spec fn deep_view(&self) -> TodoItemView {
        self@
    }
}

impl Clone for TodoItem {
    /// A copy with the same texts and the same flag.
    fn clone(&self) -> (copy: Self)
        ensures
            copy == *self,
    {
        TodoItem {
            title: self.title.clone(),
            description: self.description.clone(),
            is_done: self.is_done,
        }
    }
}

} // verus!
