//! JSON values that the library builds and carries through without reading
//! them. What a builder gives depends on its arguments alone, so each result
//! is named.
use vstd::prelude::*;

verus! {

#[verifier::external_type_specification]
#[verifier::external_body]
pub struct ExJsonValue(serde_json::Value);

/// What `serde_json::Value::String` gives for a text.
pub uninterp spec fn json_string_of(text: Seq<char>) -> serde_json::Value;

/// What `serde_json::Value::Object` of a `serde_json::Map` collected from the
/// entries (key, value), in their order, gives.
pub uninterp spec fn json_object_of(entries: Seq<(Seq<char>, serde_json::Value)>) -> serde_json::Value;

/// What `serde_json::Value::Array` of the items gives.
pub uninterp spec fn json_array_of(items: Seq<serde_json::Value>) -> serde_json::Value;

/// The entries of an object, with each key taken as its text.
pub open spec fn entries_view(entries: Seq<(String, serde_json::Value)>) -> Seq<(Seq<char>, serde_json::Value)> {
    entries.map_values(|e: (String, serde_json::Value)| (e.0@, e.1))
}

/// `Clone` of `serde_json::Value`: the derived deep copy, equal to the original.
pub assume_specification[ <serde_json::Value as Clone>::clone ](v: &serde_json::Value) -> (r: serde_json::Value)
    ensures
        r == *v,
;

/// An empty JSON object, `serde_json::Value::Object` of an empty map: the
/// object collected from no entries.
#[verifier::external_body]
pub(crate) fn empty_json_object() -> (r: serde_json::Value)
    ensures
        r == json_object_of(Seq::empty()),
{
    serde_json::Value::Object(serde_json::Map::new())
}

/// A JSON string, `serde_json::Value::String`; the result is named `json_string_of`.
#[verifier::external_body]
pub(crate) fn json_string(s: &str) -> (r: serde_json::Value)
    ensures
        r == json_string_of(s@),
{
    serde_json::Value::String(s.to_owned())
}

/// A JSON object of the entries, `serde_json::Value::Object` of a
/// `serde_json::Map` collected from them; the result is named `json_object_of`.
#[verifier::external_body]
pub(crate) fn json_object(entries: Vec<(String, serde_json::Value)>) -> (r: serde_json::Value)
    ensures
        r == json_object_of(entries_view(entries@)),
{
    serde_json::Value::Object(entries.into_iter().collect())
}

/// A JSON array of the items, `serde_json::Value::Array`; the result is named
/// `json_array_of`.
#[verifier::external_body]
pub(crate) fn json_array(items: Vec<serde_json::Value>) -> (r: serde_json::Value)
    ensures
        r == json_array_of(items@),
{
    serde_json::Value::Array(items)
}

} // verus!
