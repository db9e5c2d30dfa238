//! What is published for an accepted change.

use vstd::prelude::*;
use crate::json::{encode_strings, json_of_strings};
use crate::text::texts;

verus! {

/// The topic that every change is published under.
pub const TOPIC: &'static str = "clipboard-change";

/// One accepted change of the clipboard.
#[derive(Debug, Clone, PartialEq, Eq)]
pub enum ChangeEvent {
    /// New text.
    TextChanged { content: String },
    /// A new picture, which was written to `file_path` under the name
    /// `file_name`.
    ImageChanged { file_name: String, file_path: String },
    /// A new list of copied files.
    FilesChanged { paths: Vec<String> },
}

/// Mathematical value of a [`ChangeEvent`].
pub enum EventView {
    TextChanged { content: Seq<char> },
    ImageChanged { file_name: Seq<char>, file_path: Seq<char> },
    FilesChanged { paths: Seq<Seq<char>> },
}

impl View for ChangeEvent {
    type V = EventView;

    open spec fn view(&self) -> EventView {
        match self {
            ChangeEvent::TextChanged { content } => EventView::TextChanged { content: content@ },
            ChangeEvent::ImageChanged { file_name, file_path } => EventView::ImageChanged {
                file_name: file_name@,
                file_path: file_path@,
            },
            ChangeEvent::FilesChanged { paths } => EventView::FilesChanged { paths: texts(paths@) },
        }
    }
}

/// The keys and values of a published payload, in the order they are written.
pub open spec fn fields_view(fields: Seq<(String, String)>) -> Seq<(Seq<char>, Seq<char>)> {
    Seq::new(fields.len(), |i: int| (fields[i].0@, fields[i].1@))
}

/// The payload of a text change: its type and the text.
pub open spec fn text_payload(content: Seq<char>) -> Seq<(Seq<char>, Seq<char>)> {
    seq![("type"@, "text"@), ("content"@, content)]
}

/// The payload of an image change: its type, the file's name and its path.
pub open spec fn image_payload(file_name: Seq<char>, file_path: Seq<char>) -> Seq<
    (Seq<char>, Seq<char>),
> {
    seq![("type"@, "image"@), ("file_name"@, file_name), ("file_path"@, file_path)]
}

/// The payload of a file-list change: its type and the paths, as the JSON text
/// of an array of strings.
pub open spec fn files_payload(encoded_paths: Seq<char>) -> Seq<(Seq<char>, Seq<char>)> {
    seq![("type"@, "file"@), ("file_path"@, encoded_paths)]
}

/// The payload that is published for an event.
pub open spec fn payload_of(event: EventView) -> Seq<(Seq<char>, Seq<char>)> {
    match event {
        EventView::TextChanged { content } => text_payload(content),
        EventView::ImageChanged { file_name, file_path } => image_payload(file_name, file_path),
        EventView::FilesChanged { paths } => files_payload(json_of_strings(paths)),
    }
}

/// The payload of a text change.
pub fn text_fields(content: String) -> (fields: Vec<(String, String)>)
    ensures
        fields_view(fields@) == text_payload(content@),
{
    let mut fields: Vec<(String, String)> = Vec::new();
    fields.push(("type".to_owned(), "text".to_owned()));
    fields.push(("content".to_owned(), content));
    assert(fields_view(fields@) =~= text_payload(content@));
    fields
}

/// The payload of an image change.
pub fn image_fields(file_name: String, file_path: String) -> (fields: Vec<(String, String)>)
    ensures
        fields_view(fields@) == image_payload(file_name@, file_path@),
{
    let mut fields: Vec<(String, String)> = Vec::new();
    fields.push(("type".to_owned(), "image".to_owned()));
    fields.push(("file_name".to_owned(), file_name));
    fields.push(("file_path".to_owned(), file_path));
    assert(fields_view(fields@) =~= image_payload(file_name@, file_path@));
    fields
}

/// The payload of a file-list change, given the JSON text of its paths.
pub fn files_fields(encoded_paths: String) -> (fields: Vec<(String, String)>)
    ensures
        fields_view(fields@) == files_payload(encoded_paths@),
{
    let mut fields: Vec<(String, String)> = Vec::new();
    fields.push(("type".to_owned(), "file".to_owned()));
    fields.push(("file_path".to_owned(), encoded_paths));
    assert(fields_view(fields@) =~= files_payload(encoded_paths@));
    fields
}

impl ChangeEvent {
    /// The payload to publish for this event. Every event has one.
    pub fn fields(&self) -> (fields: Option<Vec<(String, String)>>)
        ensures
            fields matches Some(f) && fields_view(f@) == payload_of(self@),
    {
        match self {
            ChangeEvent::TextChanged { content } => Some(text_fields(content.clone())),
            ChangeEvent::ImageChanged { file_name, file_path } => Some(
                image_fields(file_name.clone(), file_path.clone()),
            ),
            ChangeEvent::FilesChanged { paths } => match encode_strings(paths) {
                Ok(encoded) => Some(files_fields(encoded)),
                // A list of strings always has a JSON text.
                Err(_) => None,
            },
        }
    }
}

} // verus!
