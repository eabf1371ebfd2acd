//! The JSON values that the server hands out, as far as the library reads
//! them.
//!
//! A [`serde_json::Value`] is opaque to the verifier. What the library needs
//! to know of one is named here, and each name is tied to the method of the
//! value that computes it.

use vstd::prelude::*;

verus! {

/// Makes `serde_json::Value` known to the verifier, as a type whose inside
/// it does not see.
#[verifier::external_type_specification]
#[verifier::external_body]
pub struct ExJsonValue(serde_json::Value);

/// Whether the value is a JSON object.
pub uninterp spec fn json_is_object(value: serde_json::Value) -> bool;

/// The member of the value under `key`: present when the value is an object
/// that holds the key.
pub uninterp spec fn json_member(value: serde_json::Value, key: Seq<char>) -> Option<
    serde_json::Value,
>;

/// The text of the value, when the value is a JSON string.
pub uninterp spec fn json_string(value: serde_json::Value) -> Option<Seq<char>>;

/// The value written out as compact JSON.
pub uninterp spec fn json_text(value: serde_json::Value) -> Seq<char>;

/// The text of the member under `key`, when the value holds such a member
/// and the member is a JSON string.
pub open spec fn json_member_string(value: serde_json::Value, key: Seq<char>) -> Option<
    Seq<char>,
> {
    match json_member(value, key) {
        Some(member) => json_string(member),
        None => None,
    }
}

/// Trusted: calls `serde_json::Value::is_object`; the contract names its
/// answer.
#[verifier::external_body]
pub(crate) fn is_object(value: &serde_json::Value) -> (b: bool)
    ensures
        b == json_is_object(*value),
{
    value.is_object()
}

/// Trusted: calls `serde_json::Value::get` with a string key; the contract
/// names the member that it finds, or that it finds none.
#[verifier::external_body]
pub(crate) fn member<'a>(value: &'a serde_json::Value, key: &str) -> (m: Option<
    &'a serde_json::Value,
>)
    ensures
        match m {
            Some(found) => json_member(*value, key@) == Some(*found),
            None => json_member(*value, key@) is None,
        },
{
    value.get(key)
}

/// Trusted: calls `serde_json::Value::as_str` and copies the slice; the
/// contract names the text, or that the value is no string.
#[verifier::external_body]
pub(crate) fn as_string(value: &serde_json::Value) -> (s: Option<String>)
    ensures
        s.deep_view() == json_string(*value),
{
    value.as_str().map(|s| s.to_string())
}

/// Trusted: calls `to_string` on a `serde_json::Value`, which writes the
/// value through its `Display` impl as compact JSON; the contract names the
/// text.
#[verifier::external_body]
pub(crate) fn to_text(value: &serde_json::Value) -> (s: String)
    ensures
        s@ == json_text(*value),
{
    value.to_string()
}

/// The text of the member under `key`, if the value holds such a member and
/// the member is a JSON string.
pub fn member_string(value: &serde_json::Value, key: &str) -> (s: Option<String>)
    ensures
        s.deep_view() == json_member_string(*value, key@),
{
    match member(value, key) {
        Some(found) => as_string(found),
        None => None,
    }
}

} // verus!
