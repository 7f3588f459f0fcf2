//! The JSON that the client reads and writes, through `serde_json`.
use vstd::prelude::*;

verus! {

/// Whether `serde_json` accepts a text as a JSON document.
pub uninterp spec fn parses_as_json(text: Seq<char>) -> bool;

/// The string that a JSON text gives to a key of its top-level object, when the text
/// parses and that value is a string.
pub uninterp spec fn json_string_field(text: Seq<char>, key: Seq<char>) -> Option<Seq<char>>;

/// The JSON text of an object whose values are all strings.
pub uninterp spec fn json_object_text(fields: Seq<(Seq<char>, Seq<char>)>) -> Seq<char>;

/// `serde_json::from_str::<serde_json::Value>`: whether the text parses as JSON.
#[verifier::external_body]
pub(crate) fn is_valid_json(text: &str) -> (b: bool)
    ensures
        b == parses_as_json(text@),
{
    serde_json::from_str::<serde_json::Value>(text).is_ok()
}

/// `serde_json::from_str::<serde_json::Value>` then `Value::get(key)` and
/// `Value::as_str`: the string value of `key`, when the text parses and has one.
#[verifier::external_body]
pub(crate) fn string_field(text: &str, key: &str) -> (r: Option<String>)
    ensures
        match r {
            Some(s) => json_string_field(text@, key@) == Some(s@),
            None => json_string_field(text@, key@) is None,
        },
{
    serde_json::from_str::<serde_json::Value>(text).ok()?.get(key)?.as_str().map(str::to_string)
}

/// `serde_json::Value::to_string` of an object built from string pairs (what the
/// `json!` macro builds for such an object).
#[verifier::external_body]
pub(crate) fn object_text(fields: &Vec<(String, String)>) -> (r: String)
    ensures
        r@ == json_object_text(fields.deep_view()),
{
    serde_json::Value::Object(
        fields.iter().map(|(k, v)| (k.clone(), serde_json::Value::String(v.clone()))).collect(),
    ).to_string()
}

} // verus!
