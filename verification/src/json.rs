//! JSON, as far as the library reads and writes it: the text of an
//! evaluated script value, and the objects of a document.

use vstd::prelude::*;
use serde_json::Value;

verus! {

/// serde_json's value: any JSON document. Opaque here.
#[verifier::external_type_specification]
#[verifier::external_body]
pub struct ExValue(Value);

/// serde_json's error. Opaque here.
#[verifier::external_type_specification]
#[verifier::external_body]
pub struct ExJsonError(serde_json::Error);

/// The value that a borrowed value stands for, if there is one.
pub open spec fn held(value: Option<&Value>) -> Option<Value> {
    match value {
        Some(value) => Some(*value),
        None => None,
    }
}

/// The JSON text that serde_json writes for a value, or for the lack of
/// one. There is nothing where serde_json cannot write the value.
pub uninterp spec fn json_chars(value: Option<Value>) -> Option<Seq<char>>;

/// The objects that a JSON value holds: each path of member names that
/// leads from the value to an object, with the names of that object's
/// members in the order in which the object gives them. The empty path
/// leads to the value itself.
pub uninterp spec fn json_objects(value: Value) -> Map<Seq<Seq<char>>, Seq<Seq<char>>>;

/// The objects of the JSON document that a text holds. There is nothing
/// where the text holds no JSON document.
pub uninterp spec fn text_objects(text: Seq<char>) -> Option<Map<Seq<Seq<char>>, Seq<Seq<char>>>>;

/// The member names of the object that `path` leads to. There are none
/// where it leads to no object.
pub open spec fn names_at(
    objects: Map<Seq<Seq<char>>, Seq<Seq<char>>>,
    path: Seq<Seq<char>>,
) -> Seq<Seq<char>> {
    if objects.contains_key(path) {
        objects[path]
    } else {
        Seq::empty()
    }
}

/// Trusted: `serde_json::to_string`, applied to a value that may be
/// missing, returns its JSON text or serde_json's error. Which it is, and
/// what the text is, depends on the value alone.
#[verifier::external_body]
fn to_json_text(value: Option<&Value>) -> (written: Result<String, serde_json::Error>)
    ensures
        match written {
            Ok(text) => json_chars(held(value)) == Some(text@),
            Err(_) => json_chars(held(value)) is None,
        },
{
    serde_json::to_string(&value)
}

/// Trusted: `serde_json::from_str`, asked for a value, reads `text` as a
/// JSON document and returns it, or serde_json's error where the text is
/// none. Which it is, and what the document holds, depends on the text
/// alone.
#[verifier::external_body]
pub(crate) fn parse_json(text: &str) -> (parsed: Result<Value, serde_json::Error>)
    ensures
        match parsed {
            Ok(document) => text_objects(text@) == Some(json_objects(document)),
            Err(_) => text_objects(text@) is None,
        },
{
    serde_json::from_str::<Value>(text)
}

/// The JSON text of a script's value, or why it could not be written.
/// A missing value is written as serde_json writes it.
///
/// A value that cannot be written is reported with serde_json's message;
/// nothing is put in its place.
pub(crate) fn json_text(value: Option<&Value>) -> (written: Result<String, String>)
    ensures
        match written {
            Ok(text) => json_chars(held(value)) == Some(text@),
            Err(_) => json_chars(held(value)) is None,
        },
{
    match to_json_text(value) {
        Ok(text) => Ok(text),
        Err(error) => Err(error.to_string()),
    }
}

} // verus!
