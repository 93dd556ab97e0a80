//! The library's trusted view of serde_json.
//!
//! A content document is a `serde_json::Value`, opaque to the verifier. What
//! the store's logic needs of a document is named here: what it parses from
//! and renders to text, whether it is an object, and what its top-level
//! fields are. Each name is given meaning only through the contracts of the
//! wrappers below, which make the actual serde_json calls.

use vstd::prelude::*;

verus! {

#[verifier::external_type_specification]
#[verifier::external_body]
pub struct ExValue(serde_json::Value);

#[verifier::external_type_specification]
#[verifier::external_body]
pub struct ExJsonError(serde_json::Error);

/// What serde_json::from_str::<Value> returns on a piece of text: a function
/// of the text alone.
pub uninterp spec fn json_parse_of(text: Seq<char>) -> Result<serde_json::Value, serde_json::Error>;

/// The text of a serde_json error, as its Display implementation renders it.
pub uninterp spec fn error_text_of(e: serde_json::Error) -> Seq<char>;

/// The pretty-printed rendering of a document.
pub uninterp spec fn pretty_of(v: serde_json::Value) -> Seq<char>;

/// Whether a document's root is an object.
pub uninterp spec fn doc_is_object(v: serde_json::Value) -> bool;

/// The top-level fields of an object document, keyed by field name.
pub uninterp spec fn doc_fields(v: serde_json::Value) -> Map<Seq<char>, serde_json::Value>;

/// The JSON string value holding the given text.
pub uninterp spec fn json_string(s: Seq<char>) -> serde_json::Value;

/// Whether a document's nesting stays within the depth serde_json's parser
/// accepts (the parser enforces a recursion limit; the renderer does not).
/// Every parsed document is within it, and setting a top-level field to a
/// string keeps a document within it.
pub uninterp spec fn within_parse_depth(v: serde_json::Value) -> bool;

/// The document a piece of text parses to, if it is valid JSON.
pub open spec fn json_value_of(text: Seq<char>) -> Option<serde_json::Value> {
    match json_parse_of(text) {
        Ok(v) => Some(v),
        Err(_) => None,
    }
}

/// Relies on serde_json::from_str::<Value>: the outcome — document or error —
/// is a function of the text alone, and a document it accepts is nested
/// within the parser's own recursion limit.
#[verifier::external_body]
pub(crate) fn parse_json(text: &str) -> (r: Result<serde_json::Value, serde_json::Error>)
    ensures
        r == json_parse_of(text@),
        r is Ok ==> within_parse_depth(r->Ok_0),
{
    serde_json::from_str(text)
}

/// Relies on serde_json::to_string_pretty: rendering a Value cannot fail (it
/// writes into an infallible string writer and every object key is a
/// string), the rendered text is a function of the document alone, and for a
/// document within the parser's recursion limit, feeding the text back
/// through serde_json::from_str yields the same document.
#[verifier::external_body]
pub(crate) fn to_pretty_json(v: &serde_json::Value) -> (r: Result<String, serde_json::Error>)
    ensures
        r is Ok,
        r->Ok_0@ == pretty_of(*v),
        within_parse_depth(*v) ==> json_value_of(r->Ok_0@) == Some(*v),
{
    serde_json::to_string_pretty(v)
}

/// Relies on serde_json::Value::is_object.
#[verifier::external_body]
pub(crate) fn value_is_object(v: &serde_json::Value) -> (r: bool)
    ensures
        r == doc_is_object(*v),
{
    v.is_object()
}

/// Relies on serde_json::Value::as_object_mut and serde_json::Map::insert:
/// inserting into the top-level object binds the key to the given string
/// value, leaves every other field unchanged, and deepens no nesting.
#[verifier::external_body]
pub(crate) fn insert_string_field(v: &mut serde_json::Value, key: &str, value: &str)
    requires
        doc_is_object(*old(v)),
    ensures
        doc_is_object(*final(v)),
        doc_fields(*final(v)) == doc_fields(*old(v)).insert(key@, json_string(value@)),
        within_parse_depth(*old(v)) ==> within_parse_depth(*final(v)),
{
    if let serde_json::Value::Object(map) = v {
        map.insert(key.to_string(), serde_json::Value::String(value.to_string()));
    }
}

/// Relies on serde_json::Error's Display implementation for the text of a
/// parse or render failure.
#[verifier::external_body]
pub(crate) fn json_error_message(e: &serde_json::Error) -> (r: String)
    ensures
        r@ == error_text_of(*e),
{
    e.to_string()
}

} // verus!
