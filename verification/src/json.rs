//! Reading values out of JSON documents with `serde_json`.

use vstd::prelude::*;

verus! {

/// The string that the JSON pointer `pointer` (RFC 6901) designates in the
/// JSON document `text`, as `serde_json` parses the document and resolves the
/// pointer; `None` when the text is not JSON, the pointer designates nothing,
/// or what it designates is not a string.
pub uninterp spec fn json_string_at(text: Seq<char>, pointer: Seq<char>) -> Option<Seq<char>>;

/// Whether the JSON pointer `pointer` designates an array in the JSON
/// document `text`, as `serde_json` parses and resolves them.
pub uninterp spec fn json_array_at(text: Seq<char>, pointer: Seq<char>) -> bool;

/// Whether the JSON pointer `pointer` designates an object in the JSON
/// document `text`, as `serde_json` parses and resolves them.
pub uninterp spec fn json_object_at(text: Seq<char>, pointer: Seq<char>) -> bool;

/// A string's view inside an option.
pub open spec fn opt_string_view(o: Option<String>) -> Option<Seq<char>> {
    match o {
        Some(s) => Some(s@),
        None => None,
    }
}

/// Parses `text` with `serde_json::from_str` into a `serde_json::Value`,
/// resolves `pointer` with `Value::pointer` and reads the result with
/// `Value::as_str`. The contract only names the result: it depends on the two
/// arguments alone.
#[verifier::external_body]
pub(crate) fn string_at(text: &str, pointer: &str) -> (r: Option<String>)
    ensures
        opt_string_view(r) == json_string_at(text@, pointer@),
{
    match serde_json::from_str::<serde_json::Value>(text) {
        Ok(v) => v.pointer(pointer).and_then(serde_json::Value::as_str).map(String::from),
        Err(_) => None,
    }
}

/// Parses `text` with `serde_json::from_str` into a `serde_json::Value`,
/// resolves `pointer` with `Value::pointer` and tests the result with
/// `Value::is_array`. The contract only names the result.
#[verifier::external_body]
pub(crate) fn array_at(text: &str, pointer: &str) -> (r: bool)
    ensures
        r == json_array_at(text@, pointer@),
{
    match serde_json::from_str::<serde_json::Value>(text) {
        Ok(v) => v.pointer(pointer).map_or(false, serde_json::Value::is_array),
        Err(_) => false,
    }
}

/// Parses `text` with `serde_json::from_str` into a `serde_json::Value`,
/// resolves `pointer` with `Value::pointer` and tests the result with
/// `Value::is_object`. The contract only names the result.
#[verifier::external_body]
pub(crate) fn object_at(text: &str, pointer: &str) -> (r: bool)
    ensures
        r == json_object_at(text@, pointer@),
{
    match serde_json::from_str::<serde_json::Value>(text) {
        Ok(v) => v.pointer(pointer).map_or(false, serde_json::Value::is_object),
        Err(_) => false,
    }
}

} // verus!
