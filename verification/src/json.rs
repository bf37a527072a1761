//! JSON values, which this library carries, the parser that reads them, and
//! the few values that the library builds itself.

use vstd::prelude::*;

verus! {

/// `serde_json::Value`: any JSON value.
#[verifier::external_type_specification]
#[verifier::external_body]
pub struct ExValue(serde_json::Value);

/// What `serde_json::from_str` makes of a text: the value that it reads,
/// or the words of its error where the text is no JSON value.
pub uninterp spec fn json_outcome(text: Seq<char>) -> Result<serde_json::Value, Seq<char>>;

/// The members of a JSON object, by their keys; `None` for a value that is
/// no object.
pub uninterp spec fn object_members(value: serde_json::Value) -> Option<
    Map<Seq<char>, serde_json::Value>,
>;

/// The truth value that a JSON value is; `None` for a value of another
/// kind.
pub uninterp spec fn json_flag(value: serde_json::Value) -> Option<bool>;

/// The text that a JSON string is; `None` for a value of another kind.
pub uninterp spec fn json_text(value: serde_json::Value) -> Option<Seq<char>>;

/// A parse as a mathematical value.
pub open spec fn parse_view(parsed: Result<serde_json::Value, String>) -> Result<
    serde_json::Value,
    Seq<char>,
> {
    match parsed {
        Ok(value) => Ok(value),
        Err(detail) => Err(detail@),
    }
}

/// Whether a value is the object without members.
pub open spec fn is_empty_object(value: serde_json::Value) -> bool {
    object_members(value) == Some(Map::<Seq<char>, serde_json::Value>::empty())
}

/// Whether a value is an object with exactly one member, under `key`.
pub open spec fn has_one_member(value: serde_json::Value, key: Seq<char>) -> bool {
    &&& object_members(value) is Some
    &&& object_members(value)->0.dom() =~= set![key]
}

/// The member of an object under `key`.
pub open spec fn member(value: serde_json::Value, key: Seq<char>) -> serde_json::Value
    recommends
        object_members(value) is Some,
        object_members(value)->0.dom().contains(key),
{
    object_members(value)->0[key]
}

/// `serde_json::from_str`, read as a `serde_json::Value`. The contract
/// names the outcome, the value read or the error's words: it is a function
/// of the text alone. Nothing is claimed of which texts parse.
#[verifier::external_body]
pub(crate) fn parse_json(text: &str) -> (r: Result<serde_json::Value, String>)
    ensures
        parse_view(r) == json_outcome(text@),
{
    match serde_json::from_str(text) {
        Ok(value) => Ok(value),
        Err(e) => Err(e.to_string()),
    }
}

/// `serde_json::Map::new` under `serde_json::Value::Object`: the object
/// without members.
#[verifier::external_body]
pub(crate) fn empty_object() -> (r: serde_json::Value)
    ensures
        object_members(r) == Some(Map::<Seq<char>, serde_json::Value>::empty()),
{
    serde_json::Value::Object(serde_json::Map::new())
}

/// `serde_json::Map::insert` on a new map, under
/// `serde_json::Value::Object`: the object whose one member is `member`,
/// under `key`.
#[verifier::external_body]
pub(crate) fn object_of(key: &str, member: serde_json::Value) -> (r: serde_json::Value)
    ensures
        object_members(r) == Some(
            Map::<Seq<char>, serde_json::Value>::empty().insert(key@, member),
        ),
{
    let mut members = serde_json::Map::new();
    members.insert(key.to_string(), member);
    serde_json::Value::Object(members)
}

/// `serde_json::Value::Bool`: a truth value as a JSON value.
#[verifier::external_body]
pub(crate) fn bool_value(flag: bool) -> (r: serde_json::Value)
    ensures
        json_flag(r) == Some(flag),
{
    serde_json::Value::Bool(flag)
}

/// `serde_json::Value::String`: a text as a JSON string.
#[verifier::external_body]
pub(crate) fn string_value(text: String) -> (r: serde_json::Value)
    ensures
        json_text(r) == Some(text@),
{
    serde_json::Value::String(text)
}

} // verus!
