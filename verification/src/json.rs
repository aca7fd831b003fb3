//! JSON values of `serde_json` and what the rendering of a record relies on
//! of them.

use vstd::prelude::*;
use serde_json::Value;
use crate::text::decimal_text;

verus! {

/// A JSON value. What it holds is spoken of through [`json_text`].
#[verifier::external_type_specification]
#[verifier::external_body]
pub struct ExValue(Value);

/// The error of `serde_json`'s parser. It is only ever dropped.
#[verifier::external_type_specification]
#[verifier::external_body]
pub struct ExJsonError(serde_json::Error);

/// The compact JSON text of a value: what its `to_string` gives.
pub uninterp spec fn json_text(value: Value) -> Seq<char>;

/// The compact JSON text of the value that a text is read as, or `None`
/// where the text is not JSON.
pub uninterp spec fn json_document(text: Seq<char>) -> Option<Seq<char>>;

/// A text as a JSON string: between double quotes, with what JSON asks to
/// be escaped.
pub uninterp spec fn json_quoted(text: Seq<char>) -> Seq<char>;

/// The compact JSON text of an object, given each member's name and the
/// compact JSON text of its value, in the order in which the members were
/// handed over.
pub uninterp spec fn object_text(members: Seq<(Seq<char>, Seq<char>)>) -> Seq<char>;

/// Each member's name and the compact JSON text of its value.
pub open spec fn member_texts(members: Seq<(String, Value)>) -> Seq<(Seq<char>, Seq<char>)> {
    Seq::new(members.len(), |i: int| (members[i].0@, json_text(members[i].1)))
}

/// Trusted: `serde_json::from_str` for a `Value`. The contract only names
/// the outcome: on success the text reads as the value that was returned,
/// on failure it reads as nothing.
#[verifier::external_body]
pub(crate) fn parse_json(text: &str) -> (parsed: Result<Value, serde_json::Error>)
    ensures
        match parsed {
            Ok(value) => json_document(text@) == Some(json_text(value)),
            Err(_) => json_document(text@) is None,
        },
{
    serde_json::from_str::<Value>(text)
}

/// Trusted: `Value::String`. The contract names the text of the value.
#[verifier::external_body]
pub(crate) fn json_string(text: &str) -> (value: Value)
    ensures
        json_text(value) == json_quoted(text@),
{
    Value::String(String::from(text))
}

/// Trusted: `Value::Null`, which is rendered as `null`.
#[verifier::external_body]
pub(crate) fn json_null() -> (value: Value)
    ensures
        json_text(value) == "null"@,
{
    Value::Null
}

/// Trusted: `Value::from` for an `i64`. The number is rendered in decimal,
/// with a minus sign if it is negative.
#[verifier::external_body]
pub(crate) fn json_integer(number: i64) -> (value: Value)
    ensures
        json_text(value) == decimal_text(number as int),
{
    Value::from(number)
}

/// Trusted: `serde_json::Map`'s `from_iter`, wrapped in `Value::Object`.
/// The contract only names the text of the object, which is decided by the
/// members' names and their values' texts.
#[verifier::external_body]
pub(crate) fn object_of(members: Vec<(String, Value)>) -> (object: Value)
    ensures
        json_text(object) == object_text(member_texts(members@)),
{
    Value::Object(members.into_iter().collect())
}

/// Trusted: `to_string` on a `Value`, which renders it compactly. The
/// contract gives the result its name.
#[verifier::external_body]
pub(crate) fn render(value: &Value) -> (text: String)
    ensures
        text@ == json_text(*value),
{
    value.to_string()
}

} // verus!
