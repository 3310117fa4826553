use vstd::prelude::*;

verus! {

#[verifier::external_type_specification]
#[verifier::external_body]
pub struct ExJsonValue(serde_json::Value);

#[verifier::external_type_specification]
#[verifier::external_body]
pub struct ExJsonError(serde_json::Error);

/// Whether a text is a well-formed JSON document, as `serde_json` judges it; a
/// fixed function of the text alone.
pub uninterp spec fn json_accepted(text: Seq<char>) -> bool;

/// The string value at a top-level key of a JSON text: nothing when the text
/// does not parse, is not an object, lacks the key, or holds a non-string
/// there; a fixed function of the text and the key alone.
pub uninterp spec fn json_str_field(text: Seq<char>, key: Seq<char>) -> Option<Seq<char>>;

/// Relies on `serde_json::from_str::<Value>`: succeeds exactly on the
/// documents serde_json accepts (well-formed JSON within its recursion
/// limit); which documents those are is a fixed function of the text.
#[verifier::external_body]
pub(crate) fn parse_json(text: &str) -> (r: Result<serde_json::Value, serde_json::Error>)
    ensures
        r is Ok <==> json_accepted(text@),
{
    serde_json::from_str(text)
}

/// Relies on `serde_json::from_str::<Value>`, `Value::get` and
/// `Value::as_str`: the string value at a top-level key, each step a fixed
/// function of the text, so the whole lookup is one too.
#[verifier::external_body]
pub(crate) fn json_string_field(text: &str, key: &str) -> (r: Option<String>)
    ensures
        match r {
            Some(s) => json_str_field(text@, key@) == Some(s@),
            None => json_str_field(text@, key@) is None,
        },
{
    match serde_json::from_str::<serde_json::Value>(text) {
        Ok(value) => value.get(key).and_then(|field| field.as_str()).map(|s| s.to_string()),
        Err(_) => None,
    }
}

} // verus!
