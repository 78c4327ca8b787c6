//! The two decisions that surround the file: which list a load yields, and
//! which write a save asks for. Reading, writing and the JSON coding are the
//! caller's; it tells how they went and carries out what comes back.

use vstd::prelude::*;
use crate::item::{TodoItem, TodoItemView};

verus! {

/// Why a load could not produce the stored list.
#[derive(Debug, Clone, Copy, PartialEq, Eq)]
pub enum LoadFailure {
    /// The file could not be read: it is missing, or reading it failed.
    Unreadable,
    /// The file was read, but its text is not a JSON array of todo items.
    Undecodable,
}

/// The request to replace the whole content of the file at `path` by `text`.
#[derive(Debug, PartialEq, Eq)]
pub struct FileWrite {
    pub path: String,
    pub text: String,
}

/// A [`FileWrite`] with its two texts as sequences of characters.
pub ghost struct FileWriteView {
    pub path: Seq<char>,
    pub text: Seq<char>,
}

impl View for FileWrite {
    type V = FileWriteView;

    open spec fn view(&self) -> FileWriteView {
        FileWriteView { path: self.path@, text: self.text@ }
    }
}

impl DeepView for FileWrite {
    type V = FileWriteView;

    open spec fn deep_view(&self) -> FileWriteView {
        self@
    }
}

/// How reading and decoding went, over the views of the decoded items.
pub open spec fn outcome_view(read: Result<Vec<TodoItem>, LoadFailure>) -> Result<
    Seq<TodoItemView>,
    LoadFailure,
> {
    match read {
        Ok(decoded) => Ok(decoded.deep_view()),
        Err(failure) => Err(failure),
    }
}

/// The list that a load yields, given how reading and decoding went: the
/// decoded items, or no items after either failure.
pub open spec fn loaded(read: Result<Seq<TodoItemView>, LoadFailure>) -> Seq<TodoItemView> {
    match read {
        Ok(decoded) => decoded,
        Err(_) => Seq::empty(),
    }
}

/// The write that a save asks for, given how encoding went: the encoded text
/// to `path`, or nothing where there is no text.
pub open spec fn write_for(path: Seq<char>, encoded: Option<Seq<char>>) -> Option<FileWriteView> {
    match encoded {
        Some(text) => Some(FileWriteView { path, text }),
        None => None,
    }
}

/// Turns the outcome of reading and decoding the file into the loaded list.
///
/// A load never fails: a file that cannot be read and a text that cannot be
/// decoded both give the empty list, and a decoded list comes back as it is.
pub fn load_todos(read: Result<Vec<TodoItem>, LoadFailure>) -> (items: Vec<TodoItem>)
    ensures
        items.deep_view() == loaded(outcome_view(read)),
        read matches Ok(decoded) ==> items@ == decoded@,
        read is Err ==> items@ == Seq::<TodoItem>::empty(),
{
    match read {
        Ok(decoded) => decoded,
        Err(_) => Vec::new(),
    }
}

/// Decides what a save writes, given the outcome of encoding the list.
///
/// With an encoded text the answer is one write of exactly that text to
/// `path`; where encoding failed, nothing is to be written.
pub fn save_todos(path: String, encoded: Option<String>) -> (write: Option<FileWrite>)
    ensures
        write.deep_view() == write_for(path@, encoded.deep_view()),
        write is Some <==> encoded is Some,
        write matches Some(w) ==> w.path == path && encoded == Some(w.text),
{
    match encoded {
        Some(text) => Some(FileWrite { path, text }),
        None => None,
    }
}

/// Between encoder and decoder the two decisions change nothing: if `encode`
/// gives a text for `list` and `decode` turns that text back into `list`, then
/// the save asks to write that text to `path`, and a load that decodes what was
/// written yields `list`.
///
/// This is the part of the round trip through the file that does not depend on
/// the file system or on the JSON coding, which both lie with the caller.
pub proof fn lemma_load_after_save(
    encode: spec_fn(Seq<TodoItemView>) -> Option<Seq<char>>,
    decode: spec_fn(Seq<char>) -> Result<Seq<TodoItemView>, LoadFailure>,
    path: Seq<char>,
    list: Seq<TodoItemView>,
)
    requires
        encode(list) matches Some(text) && decode(text) == Ok::<Seq<TodoItemView>, LoadFailure>(
            list,
        ),
    ensures
        write_for(path, encode(list)) matches Some(write) && write.path == path && encode(list)
            == Some(write.text) && loaded(decode(write.text)) == list,
{
}

} // verus!
