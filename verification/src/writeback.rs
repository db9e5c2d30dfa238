//! Putting content back on the clipboard.
//!
//! The caller names the content and one of three formats. A picture is put
//! back as the path of its file, in a file list of one entry: there is no way
//! to write raw pixels.

use vstd::prelude::*;
use crate::json::{decode_strings, strings_of_json};
use crate::text::texts;

verus! {

/// What is to be written to the clipboard.
#[derive(Debug, Clone, PartialEq, Eq)]
pub enum WriteRequest {
    /// Write this text.
    Text(String),
    /// Write this list of file paths.
    Files(Vec<String>),
}

/// Mathematical value of a [`WriteRequest`].
pub enum WriteRequestView {
    Text(Seq<char>),
    Files(Seq<Seq<char>>),
}

impl View for WriteRequest {
    type V = WriteRequestView;

    open spec fn view(&self) -> WriteRequestView {
        match self {
            WriteRequest::Text(t) => WriteRequestView::Text(t@),
            WriteRequest::Files(p) => WriteRequestView::Files(texts(p@)),
        }
    }
}

/// Why nothing can be written.
#[derive(Debug, Clone, Copy, PartialEq, Eq, Structural)]
pub enum WriteError {
    /// The format is none of `text`, `image` and `files`.
    UnsupportedFormat,
    /// The format is `files`, and the content is not the JSON text of an array
    /// of strings.
    MalformedFileList,
}

/// What is written for a content in a format, given what the content reads as
/// where it is taken for the JSON text of an array of strings:
/// `text` writes the content itself; `image` writes the content as the one
/// path of a file list; `files` writes the paths that the content lists.
pub open spec fn planned(
    content: Seq<char>,
    format: Seq<char>,
    decoded: Option<Seq<Seq<char>>>,
) -> Result<WriteRequestView, WriteError> {
    if format == "text"@ {
        Ok(WriteRequestView::Text(content))
    } else if format == "image"@ {
        Ok(WriteRequestView::Files(seq![content]))
    } else if format == "files"@ {
        match decoded {
            Some(paths) => Ok(WriteRequestView::Files(paths)),
            None => Err(WriteError::MalformedFileList),
        }
    } else {
        Err(WriteError::UnsupportedFormat)
    }
}

/// Whether `plan` is the request, or the refusal, that `expected` describes.
pub open spec fn plan_is(
    plan: Result<WriteRequest, WriteError>,
    expected: Result<WriteRequestView, WriteError>,
) -> bool {
    match expected {
        Ok(request) => plan matches Ok(r) && r@ == request,
        Err(e) => plan == Err::<WriteRequest, WriteError>(e),
    }
}

/// Works out what to write for a content in a format.
pub fn plan_write(content: String, format: &str) -> (plan: Result<WriteRequest, WriteError>)
    ensures
        plan_is(plan, planned(content@, format@, strings_of_json(content@))),
{
    if format.eq("text") {
        Ok(WriteRequest::Text(content))
    } else if format.eq("image") {
        let mut paths: Vec<String> = Vec::new();
        paths.push(content);
        assert(texts(paths@) =~= seq![content@]);
        Ok(WriteRequest::Files(paths))
    } else if format.eq("files") {
        match decode_strings(content.as_str()) {
            Ok(paths) => Ok(WriteRequest::Files(paths)),
            Err(_) => Err(WriteError::MalformedFileList),
        }
    } else {
        Err(WriteError::UnsupportedFormat)
    }
}

/// Writes a content to the clipboard in a format, and says whether it was
/// written.
///
/// `write` performs the write on a clipboard handle of its own and answers
/// whether it succeeded. It is called only where there is something to write:
/// an unsupported format, or a file list that cannot be read, is a failure
/// without any write.
pub fn write_to_clipboard<F: FnOnce(WriteRequest) -> bool>(
    content: String,
    format: &str,
    write: F,
) -> (written: bool)
    requires
        forall|request: WriteRequest| call_requires(write, (request,)),
    ensures
        match planned(content@, format@, strings_of_json(content@)) {
            Ok(expected) => exists|request: WriteRequest|
                request@ == expected && call_ensures(write, (request,), written),
            Err(_) => !written,
        },
{
    match plan_write(content, format) {
        Ok(request) => write(request),
        Err(_) => false,
    }
}

/// Text is written as it is given: in the format `text` the request is the
/// content itself, whatever it holds.
pub proof fn law_text_written_as_given(content: Seq<char>, decoded: Option<Seq<Seq<char>>>)
    ensures
        planned(content, "text"@, decoded) == Ok::<WriteRequestView, WriteError>(
            WriteRequestView::Text(content),
        ),
{
}

/// A format other than `text`, `image` and `files` is refused, whatever the
/// content.
pub proof fn law_unsupported_format_fails(
    content: Seq<char>,
    format: Seq<char>,
    decoded: Option<Seq<Seq<char>>>,
)
    requires
        format != "text"@,
        format != "image"@,
        format != "files"@,
    ensures
        planned(content, format, decoded) == Err::<WriteRequestView, WriteError>(
            WriteError::UnsupportedFormat,
        ),
{
}

} // verus!
