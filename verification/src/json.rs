//! JSON values carried through the library.

use vstd::prelude::*;

verus! {

#[verifier::external_type_specification]
#[verifier::external_body]
pub struct ExJsonValue(serde_json::Value);

#[verifier::external_type_specification]
#[verifier::external_body]
pub struct ExJsonError(serde_json::Error);

/// Cloning a JSON value (a derived `Clone`) gives an equal value.
pub assume_specification[ <serde_json::Value as Clone>::clone ](v: &serde_json::Value) -> (res: serde_json::Value)
    ensures
        res == *v,
;

/// Whether `serde_json::to_string` succeeds on the value.
pub uninterp spec fn json_serializes(v: serde_json::Value) -> bool;

/// The compact JSON text of a value.
pub uninterp spec fn json_text(v: serde_json::Value) -> Seq<char>;

/// Serializes a JSON value to compact JSON text, by `serde_json::to_string`; the text depends
/// on the value alone. It never fails for a `Value`: serialization fails only for a map with
/// keys that are not strings, and a `Value`'s object keys are strings.
#[verifier::external_body]
pub(crate) fn json_to_string(v: &serde_json::Value) -> (res: Result<String, serde_json::Error>)
    ensures
        res is Ok,
        res is Ok <==> json_serializes(*v),
        res matches Ok(s) ==> s@ == json_text(*v),
{
    serde_json::to_string(v)
}

/// The JSON string holding `s`.
pub uninterp spec fn json_string_of(s: Seq<char>) -> serde_json::Value;

/// Makes a JSON string, by `serde_json::Value::String`.
#[verifier::external_body]
pub(crate) fn json_string(s: String) -> (res: serde_json::Value)
    ensures
        res == json_string_of(s@),
{
    serde_json::Value::String(s)
}

/// The JSON object made of the entries, a later entry replacing an earlier one of the same key.
pub uninterp spec fn json_object_of(entries: Seq<(Seq<char>, serde_json::Value)>) -> serde_json::Value;

/// The entries by the characters of their keys.
pub open spec fn entries_view(entries: Seq<(String, serde_json::Value)>) -> Seq<(Seq<char>, serde_json::Value)> {
    entries.map_values(|e: (String, serde_json::Value)| (e.0@, e.1))
}

/// Makes a JSON object of the entries, collected into a `serde_json::Map` (each insert
/// replacing an earlier value of the same key) and wrapped by `serde_json::Value::Object`.
#[verifier::external_body]
pub(crate) fn json_object(entries: Vec<(String, serde_json::Value)>) -> (res: serde_json::Value)
    ensures
        res == json_object_of(entries_view(entries@)),
{
    serde_json::Value::Object(entries.into_iter().collect())
}

} // verus!
