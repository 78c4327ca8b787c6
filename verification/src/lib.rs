//! A todo list kept in a JSON file: the list operations and the decisions about
//! what is written to the file, with the reading, writing and JSON coding left
//! to the caller.

pub mod disk;
pub mod item;
pub mod list;

pub use disk::{load_todos, save_todos, FileWrite, FileWriteView, LoadFailure};
pub use item::{TodoItem, TodoItemView};
pub use list::{add_todo, remove_todo, SaveRequest, SaveRequestView, Update, UpdateView};
