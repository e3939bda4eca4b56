use vstd::prelude::*;

verus! {

/// A parsed JSON document, as `serde_json` holds it.
#[verifier::external_type_specification]
#[verifier::external_body]
pub struct ExJsonValue(serde_json::Value);

/// The texts of a JSON value: each JSON pointer under which the value holds
/// a string, with that string.
pub uninterp spec fn json_texts(value: serde_json::Value) -> Map<Seq<char>, Seq<char>>;

/// The texts of the JSON document that `body` writes; none where `body` is
/// no JSON document.
pub uninterp spec fn json_document(body: Seq<char>) -> Option<Map<Seq<char>, Seq<char>>>;

/// Calls `serde_json::from_str` for a `serde_json::Value`. The result is
/// taken to depend on `body` alone: the document parsed, or nothing on a
/// syntax error.
#[verifier::external_body]
fn parse(body: &str) -> (parsed: Option<serde_json::Value>)
    ensures
        json_document(body@) == match parsed {
            Some(value) => Some(json_texts(value)),
            None => None,
        },
{
    match serde_json::from_str::<serde_json::Value>(body) {
        Ok(value) => Some(value),
        Err(_) => None,
    }
}

/// Calls `Value::pointer` and, on what it finds, `Value::as_str`: the string
/// that `value` holds under the JSON pointer `pointer`, or nothing where
/// there is no value under it or the value is no string.
#[verifier::external_body]
fn text_at(value: &serde_json::Value, pointer: &str) -> (found: Option<String>)
    ensures
        match found {
            Some(text) => json_texts(*value).contains_key(pointer@) && json_texts(*value)[pointer@]
                == text@,
            None => !json_texts(*value).contains_key(pointer@),
        },
{
    match value.pointer(pointer) {
        Some(member) => match member.as_str() {
            Some(text) => Some(text.to_string()),
            None => None,
        },
        None => None,
    }
}

/// Why a text could not be read from a document.
#[derive(Clone, Copy, Debug, PartialEq, Eq, Structural)]
pub enum JsonError {
    /// The document is not JSON.
    Syntax,
    /// The document holds no string at the place asked for.
    Missing,
}

/// The string that a document holds under a pointer, by the texts of the
/// document.
pub open spec fn document_text(
    document: Option<Map<Seq<char>, Seq<char>>>,
    pointer: Seq<char>,
) -> Result<Seq<char>, JsonError> {
    match document {
        Some(texts) => if texts.contains_key(pointer) {
            Ok(texts[pointer])
        } else {
            Err(JsonError::Missing)
        },
        None => Err(JsonError::Syntax),
    }
}

/// Whether a result holds the text, or the error, that is expected of it.
pub open spec fn text_is(result: Result<String, JsonError>, expected: Result<Seq<char>, JsonError>)
    -> bool {
    match result {
        Ok(text) => expected == Ok::<Seq<char>, JsonError>(text@),
        Err(error) => expected == Err::<Seq<char>, JsonError>(error),
    }
}

/// Reads the string that the JSON document `body` holds under `pointer`.
pub fn read_text(body: &str, pointer: &str) -> (result: Result<String, JsonError>)
    ensures
        text_is(result, document_text(json_document(body@), pointer@)),
{
    match parse(body) {
        Some(value) => match text_at(&value, pointer) {
            Some(text) => Ok(text),
            None => Err(JsonError::Missing),
        },
        None => Err(JsonError::Syntax),
    }
}

} // verus!
