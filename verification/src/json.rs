//! What the library relies on from `serde_json`: the payload type and the few
//! questions the built-in functions ask of a payload.
use vstd::prelude::*;

verus! {

#[verifier::external_type_specification]
#[verifier::external_body]
pub struct ExJsonValue(serde_json::Value);

/// The text of a JSON string value; `None` for every other kind of value.
pub uninterp spec fn json_text(value: serde_json::Value) -> Option<Seq<char>>;

/// Whether a JSON value is an object.
pub uninterp spec fn json_is_object(value: serde_json::Value) -> bool;

/// The member stored under `key` in a JSON object; `None` where the value is
/// no object or has no such member.
pub uninterp spec fn json_member(value: serde_json::Value, key: Seq<char>) -> Option<
    serde_json::Value,
>;

/// The compact JSON text that a value is displayed as.
pub uninterp spec fn json_rendered(value: serde_json::Value) -> Seq<char>;

/// `serde_json::Value::as_str`: the borrowed text of a string value, `None`
/// for any other value.
pub assume_specification[ serde_json::Value::as_str ](value: &serde_json::Value) -> (text: Option<
    &str,
>)
    ensures
        text.is_some() == json_text(*value).is_some(),
        text matches Some(s) ==> json_text(*value) == Some(s@),
;

/// `serde_json::Value::is_object`: whether the value is an object.
pub assume_specification[ serde_json::Value::is_object ](value: &serde_json::Value) -> (yes: bool)
    ensures
        yes == json_is_object(*value),
;

/// `serde_json::Value::get` with a string key: the member of an object under
/// that key, `None` where the value is no object or lacks the key.
#[verifier::external_body]
pub(crate) fn json_get<'a>(value: &'a serde_json::Value, key: &str) -> (member: Option<
    &'a serde_json::Value,
>)
    ensures
        member.is_some() == json_member(*value, key@).is_some(),
        member matches Some(m) ==> json_member(*value, key@) == Some(*m),
{
    value.get(key)
}

/// `Display` of `serde_json::Value`: the value written as compact JSON.
#[verifier::external_body]
pub(crate) fn json_render(value: &serde_json::Value) -> (text: String)
    ensures
        text@ == json_rendered(*value),
{
    format!("{}", value)
}

/// `Clone` of `serde_json::Value`: a deep copy, equal to the value copied.
#[verifier::external_body]
pub(crate) fn json_clone(value: &serde_json::Value) -> (copy: serde_json::Value)
    ensures
        copy == *value,
{
    value.clone()
}

/// `From<&str>` of `serde_json::Value`: the JSON string value of that text.
#[verifier::external_body]
pub(crate) fn json_string(text: &str) -> (value: serde_json::Value)
    ensures
        json_text(value) == Some(text@),
{
    serde_json::Value::from(text)
}

} // verus!
