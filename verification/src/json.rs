//! The JSON values that river positions and tracks are stored as, and the
//! lookup of a message's type tag in its JSON text.

use vstd::prelude::*;

verus! {

/// A JSON document as `serde_json` holds it; the library only carries it.
#[verifier::external_type_specification]
#[verifier::external_body]
pub struct ExJsonValue(serde_json::Value);

/// The error `serde_json` reports for text that is not JSON.
#[verifier::external_type_specification]
#[verifier::external_body]
pub struct ExJsonError(serde_json::Error);

/// Whether `serde_json` reads the text as one JSON document. Reading JSON
/// depends on the text alone.
pub uninterp spec fn json_text_is_valid(text: Seq<char>) -> bool;

/// The document `serde_json` reads from a text. Reading JSON depends on the
/// text alone.
pub uninterp spec fn json_read(text: Seq<char>) -> serde_json::Value;

/// The text `serde_json::to_string` writes for a document. Writing JSON
/// depends on the document alone.
pub uninterp spec fn json_written(value: serde_json::Value) -> Seq<char>;

/// Reads a JSON document with `serde_json::from_str::<serde_json::Value>`.
/// Trusted to succeed exactly on the texts that `json_text_is_valid`
/// names, and to give the document `json_read` names for the text.
#[verifier::external_body]
pub(crate) fn parse_json_text(text: &str) -> (r: Result<serde_json::Value, serde_json::Error>)
    ensures
        r.is_ok() == json_text_is_valid(text@),
        r matches Ok(v) ==> v == json_read(text@),
{
    serde_json::from_str::<serde_json::Value>(text)
}

/// Writes a JSON document as text with `serde_json::to_string`. Trusted to
/// succeed, as the source shows for a `serde_json::Value` (its map keys are
/// strings and writing into memory cannot fail), and to give the text
/// `json_written` names for the document. Nothing more is claimed of that
/// text, not even that it reads back.
#[verifier::external_body]
pub(crate) fn json_value_text(value: &serde_json::Value) -> (r: Result<String, serde_json::Error>)
    ensures
        r.is_ok(),
        r matches Ok(t) ==> t@ == json_written(*value),
{
    serde_json::to_string(value)
}

/// What a JSON pointer finds in a document.
#[derive(Debug, Clone, PartialEq, Eq)]
pub enum PointerText {
    /// The pointer names no value of the document.
    Missing,
    /// The pointer names a value that is not a string.
    NotText,
    /// The pointer names this string.
    Text(String),
}

/// Looks a JSON pointer up with `serde_json::Value::pointer`. Trusted for
/// what its source shows of a pointer that is not empty and does not start
/// with `/`: it finds nothing. What it finds for other pointers depends on
/// the document, which the library does not describe, and is left unsaid.
#[verifier::external_body]
fn pointer_text(value: &serde_json::Value, pointer: &str) -> (r: PointerText)
    ensures
        pointer@.len() > 0 && pointer@[0] != '/' ==> r == PointerText::Missing,
{
    match value.pointer(pointer) {
        None => PointerText::Missing,
        Some(serde_json::Value::String(s)) => PointerText::Text(s.clone()),
        Some(_) => PointerText::NotText,
    }
}

/// Why the type tag of a message could not be read.
#[derive(Debug, Clone, Copy, PartialEq, Eq, Structural)]
pub enum TypeTagError {
    /// The text is not JSON.
    InvalidJson,
    /// The tag was not found.
    TypeNotFound,
    /// The tag is not a string.
    TypeNotText,
}

impl TypeTagError {
    /// The message the error is reported with.
    pub fn message(&self) -> (r: String)
        ensures
            *self == TypeTagError::InvalidJson ==> r@ == "invalid JSON"@,
            *self == TypeTagError::TypeNotFound ==> r@ == "type river not found"@,
            *self == TypeTagError::TypeNotText ==> r@ == "type river is not a string"@,
    {
        match self {
            TypeTagError::InvalidJson => String::from_str("invalid JSON"),
            TypeTagError::TypeNotFound => String::from_str("type river not found"),
            TypeTagError::TypeNotText => String::from_str("type river is not a string"),
        }
    }
}

/// Reads the type tag of a serialised request or answer, looked up with the
/// pointer `.type`. That pointer does not start with `/`, so a JSON pointer
/// never finds it: the tag is never found, and text that is not JSON is
/// refused before.
pub fn type_tag_of_json(json: &str) -> (r: Result<String, TypeTagError>)
    ensures
        !json_text_is_valid(json@) ==> r == Err::<String, TypeTagError>(TypeTagError::InvalidJson),
        json_text_is_valid(json@) ==> r == Err::<String, TypeTagError>(TypeTagError::TypeNotFound),
{
    let value = match parse_json_text(json) {
        Ok(v) => v,
        Err(_) => {
            return Err(TypeTagError::InvalidJson);
        },
    };
    let pointer = ".type";
    proof {
        reveal_strlit(".type");
    }
    match pointer_text(&value, pointer) {
        PointerText::Missing => Err(TypeTagError::TypeNotFound),
        PointerText::NotText => Err(TypeTagError::TypeNotText),
        PointerText::Text(tag) => Ok(tag),
    }
}

} // verus!
