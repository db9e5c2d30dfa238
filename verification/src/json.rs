//! JSON text of lists of strings, as `serde_json` writes and reads it.

use vstd::prelude::*;
use crate::text::texts;

verus! {

/// The error type of `serde_json`.
#[verifier::external_type_specification]
#[verifier::external_body]
pub struct ExJsonError(serde_json::Error);

/// The JSON text that `serde_json::to_string` writes for a list of strings.
pub uninterp spec fn json_of_strings(items: Seq<Seq<char>>) -> Seq<char>;

/// The list of strings that `serde_json::from_str` reads out of a text, `None`
/// where it rejects the text.
pub uninterp spec fn strings_of_json(text: Seq<char>) -> Option<Seq<Seq<char>>>;

/// Calls `serde_json::to_string` on a list of strings. It answers with a text,
/// and that text is the one named `json_of_strings` for the list. The
/// serializer fails only where its writer fails or a value refuses to be
/// written; here the writer is a byte vector and the values are strings.
#[verifier::external_body]
pub(crate) fn encode_strings(items: &Vec<String>) -> (encoded: Result<String, serde_json::Error>)
    ensures
        match encoded {
            Ok(text) => text@ == json_of_strings(texts(items@)),
            Err(_) => false,
        },
{
    serde_json::to_string(items)
}

/// Calls `serde_json::from_str` for a list of strings. The list it answers
/// with, or its refusal, is what `strings_of_json` names for the text.
#[verifier::external_body]
pub(crate) fn decode_strings(text: &str) -> (decoded: Result<Vec<String>, serde_json::Error>)
    ensures
        match decoded {
            Ok(items) => strings_of_json(text@) == Some(texts(items@)),
            Err(_) => strings_of_json(text@) is None,
        },
{
    serde_json::from_str::<Vec<String>>(text)
}

} // verus!
