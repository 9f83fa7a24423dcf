//! Trusted boundary to the JSON parser: the opaque parsed-value type, a
//! named result for each serde_json call the reply interpreter makes, and
//! thin wrappers proved to return exactly those named results. Every one
//! of these calls depends on its arguments alone, so each result may carry
//! a name; what a name is on a given document is never stated here.
use vstd::prelude::*;

verus! {

#[verifier::external_type_specification]
#[verifier::external_body]
pub struct ExValue(serde_json::Value);

/// The outcome of parsing a text as one JSON document: the document, or
/// nothing when the text is not well-formed JSON.
pub uninterp spec fn json_result_of(s: Seq<char>) -> Option<serde_json::Value>;

/// Whether a text is one well-formed JSON document, as the JSON parser
/// decides it.
pub open spec fn is_json_text(s: Seq<char>) -> bool {
    json_result_of(s) is Some
}

/// The member of a JSON object under a key, or nothing when the value is
/// no object or has no such member.
pub uninterp spec fn json_member_of(v: serde_json::Value, key: Seq<char>) -> Option<
    serde_json::Value,
>;

/// The text of a JSON string value, or nothing when the value is no string.
pub uninterp spec fn json_str_of(v: serde_json::Value) -> Option<Seq<char>>;

/// The value of a JSON number that is a non-negative integer in range, or
/// nothing otherwise.
pub uninterp spec fn json_u64_of(v: serde_json::Value) -> Option<u64>;

/// The elements of a JSON array, or nothing when the value is no array.
pub uninterp spec fn json_array_of(v: serde_json::Value) -> Option<Seq<serde_json::Value>>;

/// The compact JSON rendering of a value.
pub uninterp spec fn json_text_of(v: serde_json::Value) -> Seq<char>;

/// Relies on serde_json::from_str: whether and what it parses depends on
/// the text alone.
#[verifier::external_body]
pub(crate) fn json_parse(s: &str) -> (r: Option<serde_json::Value>)
    ensures
        r == json_result_of(s@),
        r is Some <==> is_json_text(s@),
{
    match serde_json::from_str::<serde_json::Value>(s) {
        Ok(v) => Some(v),
        Err(_) => None,
    }
}

/// Relies on serde_json::Value::get with a string key: the member under
/// the key, a function of the value and the key alone.
#[verifier::external_body]
pub(crate) fn json_get<'a>(v: &'a serde_json::Value, key: &str) -> (r: Option<
    &'a serde_json::Value,
>)
    ensures
        r is Some <==> json_member_of(*v, key@) is Some,
        r matches Some(m) ==> *m == json_member_of(*v, key@)->0,
{
    v.get(key)
}

/// Relies on serde_json::Value::as_str: the text of a string value, a
/// function of the value alone.
#[verifier::external_body]
pub(crate) fn json_as_str<'a>(v: &'a serde_json::Value) -> (r: Option<&'a str>)
    ensures
        r is Some <==> json_str_of(*v) is Some,
        r matches Some(t) ==> t@ == json_str_of(*v)->0,
{
    v.as_str()
}

/// Relies on serde_json::Value::as_u64: the integer of a number value, a
/// function of the value alone.
#[verifier::external_body]
pub(crate) fn json_as_u64(v: &serde_json::Value) -> (r: Option<u64>)
    ensures
        r == json_u64_of(*v),
{
    v.as_u64()
}

/// Relies on serde_json::Value::as_array: the elements of an array value,
/// a function of the value alone.
#[verifier::external_body]
pub(crate) fn json_as_array<'a>(v: &'a serde_json::Value) -> (r: Option<
    &'a Vec<serde_json::Value>,
>)
    ensures
        r is Some <==> json_array_of(*v) is Some,
        r matches Some(a) ==> a@ == json_array_of(*v)->0,
{
    v.as_array()
}

/// Relies on the Display impl of serde_json::Value: the compact JSON
/// rendering, a function of the value alone.
#[verifier::external_body]
pub(crate) fn json_render(v: &serde_json::Value) -> (r: String)
    ensures
        r@ == json_text_of(*v),
{
    v.to_string()
}

} // verus!
