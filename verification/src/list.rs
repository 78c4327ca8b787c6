//! Adding to and removing from the list, each with the save that follows it.

use vstd::prelude::*;
use crate::item::{TodoItem, TodoItemView};

verus! {

/// The request to store `items` as the new content of the file at `path`.
#[derive(Debug, PartialEq, Eq)]
pub struct SaveRequest {
    pub path: String,
    pub items: Vec<TodoItem>,
}

/// A [`SaveRequest`] over the views of its path and items.
pub ghost struct SaveRequestView {
    pub path: Seq<char>,
    pub items: Seq<TodoItemView>,
}

impl View for SaveRequest {
    type V = SaveRequestView;

    open spec fn view(&self) -> SaveRequestView {
        SaveRequestView { path: self.path@, items: self.items.deep_view() }
    }
}

impl DeepView for SaveRequest {
    type V = SaveRequestView;

    open spec fn deep_view(&self) -> SaveRequestView {
        self@
    }
}

/// What an operation on the list hands back: the list after it, and the save
/// that has to follow, if any.
#[derive(Debug, PartialEq, Eq)]
pub struct Update {
    pub items: Vec<TodoItem>,
    pub save: Option<SaveRequest>,
}

/// An [`Update`] over the views of its parts.
pub ghost struct UpdateView {
    pub items: Seq<TodoItemView>,
    pub save: Option<SaveRequestView>,
}

impl View for Update {
    type V = UpdateView;

    open spec fn view(&self) -> UpdateView {
        UpdateView { items: self.items.deep_view(), save: self.save.deep_view() }
    }
}

/// The item that `add_todo` makes of a title and a description: not done yet.
pub open spec fn new_item(title: Seq<char>, description: Seq<char>) -> TodoItemView {
    TodoItemView { title, description, is_done: false }
}

/// An update that leaves `items` as the list and asks to store it at `path`.
pub open spec fn stored(path: Seq<char>, items: Seq<TodoItemView>) -> UpdateView {
    UpdateView { items, save: Some(SaveRequestView { path, items }) }
}

/// Adding: the new item goes to the end, and the longer list is stored.
pub open spec fn added(
    path: Seq<char>,
    list: Seq<TodoItemView>,
    title: Seq<char>,
    description: Seq<char>,
) -> UpdateView {
    stored(path, list.push(new_item(title, description)))
}

/// Removing: a position inside the list loses its item and the shorter list
/// is stored; any other position changes nothing and stores nothing.
pub open spec fn removed(path: Seq<char>, list: Seq<TodoItemView>, index: int) -> UpdateView {
    if 0 <= index < list.len() {
        stored(path, list.remove(index))
    } else {
        UpdateView { items: list, save: None }
    }
}

/// Appends a new, not yet done item with the given title and description, and
/// asks to store the resulting list at `path`.
///
/// Title and description are taken as they are, empty or already present.
pub fn add_todo(path: String, items: Vec<TodoItem>, title: String, description: String) -> (update:
    Update)
    ensures
        update@ == added(path@, items.deep_view(), title@, description@),
        update.items@ == items@.push((TodoItem { title, description, is_done: false })),
        update.items.len() == items.len() + 1,
        update@.items.last() == new_item(title@, description@),
        !update@.items.last().is_done,
        forall|i: int| 0 <= i < items.len() ==> update@.items[i] == items.deep_view()[i],
        update.save matches Some(request) && request.path == path && request.items@
            == update.items@,
{
    let ghost before = items.deep_view();
    let mut items = items;
    items.push(TodoItem { title, description, is_done: false });
    let saved = items.clone();
    assert(items.deep_view() =~= before.push(new_item(title@, description@)));
    Update { items, save: Some(SaveRequest { path, items: saved }) }
}

/// Removes the item at `index` where there is one, moving the later items one
/// position forward, and asks to store the resulting list at `path`. An index
/// at or past the end leaves the list as it is and asks for no save.
pub fn remove_todo(path: String, items: Vec<TodoItem>, index: usize) -> (update: Update)
    ensures
        update@ == removed(path@, items.deep_view(), index as int),
        index < items.len() ==> {
            &&& update.items@ == items@.remove(index as int)
            &&& update.items.len() == items.len() - 1
            &&& forall|i: int| 0 <= i < index ==> update@.items[i] == items.deep_view()[i]
            &&& forall|i: int|
                index <= i < update.items.len() ==> update@.items[i] == items.deep_view()[i + 1]
            &&& update.save matches Some(request) && request.path == path && request.items@
                == update.items@
        },
        index >= items.len() ==> update.items@ == items@ && update.save is None,
{
    let ghost before = items.deep_view();
    let mut items = items;
    if index < items.len() {
        items.remove(index);
        let saved = items.clone();
        assert(items.deep_view() =~= before.remove(index as int));
        Update { items, save: Some(SaveRequest { path, items: saved }) }
    } else {
        Update { items, save: None }
    }
}

} // verus!
