//! Reading JSON values.

use vstd::prelude::*;

verus! {

/// A JSON value, as `serde_json` holds it.
#[verifier::external_type_specification]
#[verifier::external_body]
pub struct ExValue(serde_json::Value);

/// The members of a JSON object whose values are strings, by their keys. A
/// value that is not an object has none.
pub uninterp spec fn json_string_members(value: serde_json::Value) -> Map<Seq<char>, Seq<char>>;

/// The string under `key` in a JSON object.
///
/// Calls `serde_json::Value::get` with a string index and
/// `serde_json::Value::as_str` on what it finds. The first gives the member of
/// that key if the value is an object that has one, and nothing otherwise; the
/// second gives the characters of a JSON string and nothing for any other kind
/// of value. So together they look `key` up among the string members.
#[verifier::external_body]
pub(crate) fn json_string_member<'a>(value: &'a serde_json::Value, key: &str) -> (member: Option<
    &'a str,
>)
    ensures
        member is Some <==> json_string_members(*value).contains_key(key@),
        member matches Some(text) ==> text@ == json_string_members(*value)[key@],
{
    value.get(key).and_then(|member| member.as_str())
}

} // verus!
