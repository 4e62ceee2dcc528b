//! JSON text of parse and expansion results.

use vstd::prelude::*;
use crate::address::{pair_views, ParsedAddress};
use crate::error::{json_error_text, prefixed, PostalError};

verus! {

/// The JSON object that serde_json writes for these label/value pairs.
pub uninterp spec fn json_object_text(pairs: Seq<(Seq<char>, Seq<char>)>) -> Seq<char>;

/// The JSON array of strings that serde_json writes for these items.
pub uninterp spec fn json_array_text(items: Seq<Seq<char>>) -> Seq<char>;

/// The items of a string list, as character sequences.
pub open spec fn item_views(v: Seq<String>) -> Seq<Seq<char>> {
    v.map_values(|s: String| s@)
}

/// Relies on `serde_json::to_string` of a `serde_json::Map` of string values:
/// one JSON object holding each pair, the text a function of the pairs. It
/// fails only where a `Serialize` impl fails or a map key is not a string,
/// neither of which can happen here.
#[verifier::external_body]
fn encode_object(entries: &Vec<(String, String)>) -> (r: Result<String, serde_json::Error>)
    ensures
        r is Ok,
        r matches Ok(s) ==> s@ == json_object_text(pair_views(entries@)),
{
    let object: serde_json::Map<String, serde_json::Value> = entries
        .iter()
        .map(|(k, v)| (k.clone(), serde_json::Value::String(v.clone())))
        .collect();
    serde_json::to_string(&object)
}

/// Relies on `serde_json::to_string` of a list of strings: one JSON array
/// holding the items in their order. It fails only where a `Serialize` impl
/// fails or a map key is not a string, neither of which can happen here.
#[verifier::external_body]
fn encode_array(items: &Vec<String>) -> (r: Result<String, serde_json::Error>)
    ensures
        r is Ok,
        r matches Ok(s) ==> s@ == json_array_text(item_views(items@)),
{
    serde_json::to_string(items)
}

pub open spec fn serialize_failure_prefix() -> Seq<char> {
    "Failed to serialize to JSON: "@
}

/// The failure of a serialisation on which serde_json reported `text`.
pub fn serialization_failure(text: &str) -> (r: PostalError)
    ensures
        r matches PostalError::SerializationError { message } && message@
            == serialize_failure_prefix() + text@,
{
    PostalError::SerializationError { message: prefixed("Failed to serialize to JSON: ", text) }
}

/// The JSON object of a parsed address.
pub fn parsed_to_json(parsed: &ParsedAddress) -> (r: Result<String, PostalError>)
    ensures
        r matches Ok(s) && s@ == json_object_text(parsed.pairs()),
{
    match encode_object(parsed.entries()) {
        Ok(s) => Ok(s),
        Err(e) => {
            let text = json_error_text(&e);
            Err(serialization_failure(text.as_str()))
        },
    }
}

/// The JSON array of a list of expansions, in their order.
pub fn expanded_to_json(expanded: &Vec<String>) -> (r: Result<String, PostalError>)
    ensures
        r matches Ok(s) && s@ == json_array_text(item_views(expanded@)),
{
    match encode_array(expanded) {
        Ok(s) => Ok(s),
        Err(e) => {
            let text = json_error_text(&e);
            Err(serialization_failure(text.as_str()))
        },
    }
}

} // verus!
