//! The JSON reader that the response decoder rests on. Nothing in this file
//! is proved: each contract says what the `serde_json` crate does, and the
//! spec functions without a body give names to what it returns.

use serde_json::Value;
use vstd::prelude::*;

verus! {

#[verifier::external_type_specification]
#[verifier::external_body]
pub struct ExValue(serde_json::Value);

#[verifier::external_type_specification]
#[verifier::external_body]
pub struct ExError(serde_json::Error);

/// What `serde_json::from_str` makes of `text`: the document that it reads,
/// or the error with which it refuses the text.
pub uninterp spec fn json_document(text: Seq<char>) -> Result<Value, serde_json::Error>;

/// What `value[key]` is for a text `key`: the member of that name where
/// `value` is an object that has one, and the null value otherwise.
pub uninterp spec fn json_member(value: Value, key: Seq<char>) -> Value;

/// What `value[index]` is for a number `index`: the element at that place
/// where `value` is an array that is long enough, and the null value
/// otherwise.
pub uninterp spec fn json_element(value: Value, index: nat) -> Value;

/// What `Value::as_str` returns: the text of `value` where it is a string.
pub uninterp spec fn json_text(value: Value) -> Option<Seq<char>>;

/// What `Value::as_u64` returns: `value` as a `u64` where it is an integer
/// that fits one.
pub uninterp spec fn json_unsigned(value: Value) -> Option<u64>;

/// What the `Display` impl of `serde_json::Error` writes for `error`.
pub uninterp spec fn json_error_text(error: serde_json::Error) -> Seq<char>;

/// The characters of an optional borrowed text.
pub open spec fn str_view(text: Option<&str>) -> Option<Seq<char>> {
    match text {
        Some(t) => Some(t@),
        None => None,
    }
}

/// Calls `serde_json::from_str` to read `text` as one JSON value. The
/// contract names the outcome `json_document(text@)`: the same text always
/// gives the same document or the same error.
#[verifier::external_body]
pub(crate) fn parse_value(text: &str) -> (r: Result<Value, serde_json::Error>)
    ensures
        r == json_document(text@),
{
    serde_json::from_str(text)
}

/// Calls the `Index<&str>` impl of `serde_json::Value`, which never fails:
/// it yields the null value where there is no such member. The contract
/// names the outcome `json_member(*value, key@)`.
#[verifier::external_body]
pub(crate) fn member<'a>(value: &'a Value, key: &str) -> (r: &'a Value)
    ensures
        *r == json_member(*value, key@),
{
    &value[key]
}

/// Calls the `Index<usize>` impl of `serde_json::Value`, which never fails:
/// it yields the null value where there is no such element. The contract
/// names the outcome `json_element(*value, index as nat)`.
#[verifier::external_body]
pub(crate) fn element<'a>(value: &'a Value, index: usize) -> (r: &'a Value)
    ensures
        *r == json_element(*value, index as nat),
{
    &value[index]
}

/// Calls `serde_json::Value::as_str`. The contract names the outcome
/// `json_text(*value)`.
#[verifier::external_body]
pub(crate) fn text_of<'a>(value: &'a Value) -> (r: Option<&'a str>)
    ensures
        str_view(r) == json_text(*value),
{
    value.as_str()
}

/// Calls `serde_json::Value::as_u64`. The contract names the outcome
/// `json_unsigned(*value)`.
#[verifier::external_body]
pub(crate) fn unsigned_of(value: &Value) -> (r: Option<u64>)
    ensures
        r == json_unsigned(*value),
{
    value.as_u64()
}

/// Writes a `serde_json::Error` through its `Display` impl. The contract
/// names the outcome `json_error_text(*error)`.
#[verifier::external_body]
pub(crate) fn error_text(error: &serde_json::Error) -> (r: String)
    ensures
        r@ == json_error_text(*error),
{
    error.to_string()
}

} // verus!
