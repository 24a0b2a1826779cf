//! The parts of `serde_json` that rollout lines are read with.
use crate::db::shows_only;
use serde_json::Value;
use vstd::prelude::*;

verus! {

/// `serde_json::Value`: a JSON value of any kind.
#[verifier::external_type_specification]
#[verifier::external_body]
pub struct ExValue(serde_json::Value);

/// `serde_json::Error`.
#[verifier::external_type_specification]
#[verifier::external_body]
pub struct ExJsonError(serde_json::Error);

/// What a JSON value holds.
pub enum JsonShape {
    Null,
    Bool,
    /// A number, with its value where it is an integer of 64 bits without a sign.
    Number(Option<u64>),
    Text(Seq<char>),
    Array,
    /// The members of an object by name.
    Object(Map<Seq<char>, Value>),
}

/// What a JSON value holds.
pub uninterp spec fn json_shape(value: Value) -> JsonShape;

/// The value that a JSON text stands for, or what is said of a text that is none.
pub uninterp spec fn parsed_json(text: Seq<char>) -> Result<Value, Seq<char>>;

/// The JSON text of a value, or what is said of a value that cannot be written.
pub uninterp spec fn json_text(value: Value) -> Result<Seq<char>, Seq<char>>;

/// The member of an object, if `value` is an object that has it.
pub open spec fn member(value: Value, name: Seq<char>) -> Option<Value> {
    match json_shape(value) {
        JsonShape::Object(members) => if members.contains_key(name) {
            Some(members[name])
        } else {
            None
        },
        _ => None,
    }
}

/// The text of a value, if it is a string.
pub open spec fn string_of(value: Value) -> Option<Seq<char>> {
    match json_shape(value) {
        JsonShape::Text(text) => Some(text),
        _ => None,
    }
}

/// The number of a value, if it is an integer of 64 bits without a sign.
pub open spec fn unsigned_of(value: Value) -> Option<u64> {
    match json_shape(value) {
        JsonShape::Number(number) => number,
        _ => None,
    }
}

/// `serde_json::from_str::<Value>` gives the value that the text stands for, and an error exactly
/// where the text is no JSON. The error shows itself as a text that depends on the input alone: what is
/// wrong, and the line and column.
#[verifier::external_body]
pub(crate) fn parse_json(text: &str) -> (result: Result<Value, serde_json::Error>)
    ensures
        match result {
            Ok(value) => parsed_json(text@) == Ok::<Value, Seq<char>>(value),
            Err(error) => parsed_json(text@) matches Err(message) && shows_only(&error, message),
        },
{
    serde_json::from_str::<Value>(text)
}

/// `serde_json::to_string` writes a value as JSON text. The error of a value that cannot be written
/// shows itself as a text that depends on the value alone.
#[verifier::external_body]
pub(crate) fn write_json(value: &Value) -> (result: Result<String, serde_json::Error>)
    ensures
        match result {
            Ok(text) => json_text(*value) == Ok::<Seq<char>, Seq<char>>(text@),
            Err(error) => json_text(*value) matches Err(message) && shows_only(&error, message),
        },
{
    serde_json::to_string(value)
}

/// `Value::is_object` tells whether the value is an object.
#[verifier::external_body]
pub(crate) fn is_object(value: &Value) -> (is: bool)
    ensures
        is == (json_shape(*value) is Object),
{
    value.is_object()
}

/// `Value::get` with a name gives the member of an object, and nothing for a value that is no
/// object or has no such member.
#[verifier::external_body]
pub(crate) fn get_member<'a>(value: &'a Value, name: &str) -> (found: Option<&'a Value>)
    ensures
        match found {
            Some(inner) => member(*value, name@) == Some(*inner),
            None => member(*value, name@) is None,
        },
{
    value.get(name)
}

/// `Value::as_str` gives the text of a string, and nothing for another value.
#[verifier::external_body]
pub(crate) fn as_string(value: &Value) -> (text: Option<String>)
    ensures
        crate::value::optional_text(text) == string_of(*value),
{
    value.as_str().map(str::to_owned)
}

/// `Value::as_u64` gives the number of an integer without a sign, and nothing for another value.
#[verifier::external_body]
pub(crate) fn as_unsigned(value: &Value) -> (number: Option<u64>)
    ensures
        number == unsigned_of(*value),
{
    value.as_u64()
}

} // verus!
