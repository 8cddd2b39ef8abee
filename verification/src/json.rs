use vstd::prelude::*;

verus! {

#[verifier::external_type_specification]
#[verifier::external_body]
pub struct ExValue(serde_json::Value);

/// Whether serde_json accepts the text as a JSON document.
pub uninterp spec fn json_text_ok(s: Seq<char>) -> bool;

/// Relies on serde_json::from_str::<Value>: returns a parsed document
/// exactly when the text is valid JSON.
#[verifier::external_body]
pub(crate) fn parse_json(s: &str) -> (r: Option<serde_json::Value>)
    ensures
        r is Some <==> json_text_ok(s@),
{
    serde_json::from_str(s).ok()
}

/// Relies on serde_json::Value::get: looks a field up when the document is
/// an object that has it.
#[verifier::external_body]
pub(crate) fn json_get<'a>(v: &'a serde_json::Value, key: &str) -> Option<&'a serde_json::Value> {
    v.get(key)
}

/// Relies on serde_json::Value::as_array: the elements when the document is
/// an array.
#[verifier::external_body]
pub(crate) fn json_as_array<'a>(v: &'a serde_json::Value) -> Option<&'a Vec<serde_json::Value>> {
    v.as_array()
}

/// Relies on serde_json::Value::as_str: the characters when the document is
/// a string.
#[verifier::external_body]
pub(crate) fn json_as_str<'a>(v: &'a serde_json::Value) -> Option<&'a str> {
    v.as_str()
}

/// Relies on serde_json::Value's Display implementation: the compact JSON
/// rendering of the document.
#[verifier::external_body]
pub(crate) fn json_render(v: &serde_json::Value) -> String {
    v.to_string()
}

} // verus!
