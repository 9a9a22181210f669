//! JSON values, which pass through the library without being looked into.
use serde_json::Value;
use vstd::prelude::*;

verus! {

/// A JSON value.
#[verifier::external_type_specification]
#[verifier::external_body]
pub struct ExValue(Value);

/// Why bytes are no JSON text.
#[verifier::external_type_specification]
#[verifier::external_body]
pub struct ExJsonError(serde_json::Error);

/// The value that `serde_json::from_slice` reads from a JSON text, if the bytes
/// are one.
pub uninterp spec fn parsed_json(bytes: Seq<u8>) -> Option<Value>;

/// The JSON text that `serde_json::to_string` writes for a value.
pub uninterp spec fn json_text(value: Value) -> Seq<char>;

/// The value that `serde_json::Value::String` makes of a string.
pub uninterp spec fn string_value(text: Seq<char>) -> Value;

/// Whether a JSON text can hold `text` as it is: no quote, no backslash and no
/// control character is in it.
pub open spec fn is_plain(text: Seq<char>) -> bool {
    forall|i: int|
        0 <= i < text.len() ==> {
            let c = #[trigger] text[i];
            c != '"' && c != '\\' && c as u32 >= 0x20
        }
}

/// `serde_json::from_slice` reads a value from the bytes of a JSON text. It
/// fails on bytes that are none.
#[verifier::external_body]
pub(crate) fn parse_json(bytes: &[u8]) -> (parsed: Result<Value, serde_json::Error>)
    ensures
        match parsed {
            Ok(value) => parsed_json(bytes@) == Some(value),
            Err(_) => parsed_json(bytes@) is None,
        },
{
    serde_json::from_slice(bytes)
}

/// `serde_json::to_string` writes the JSON text of a value. Writing a `Value`
/// does not fail: its keys are strings, and the text goes to memory.
#[verifier::external_body]
pub(crate) fn write_json(value: &Value) -> (written: Result<String, serde_json::Error>)
    ensures
        match written {
            Ok(text) => text@ == json_text(*value),
            Err(_) => false,
        },
{
    serde_json::to_string(value)
}

/// `serde_json::Value::String` makes a value of a string. Its JSON text is the
/// string in quotes, as far as nothing in the string has to be escaped.
#[verifier::external_body]
pub(crate) fn json_string(text: String) -> (value: Value)
    ensures
        value == string_value(text@),
        is_plain(text@) ==> json_text(value) == seq!['"'] + text@ + seq!['"'],
{
    Value::String(text)
}

} // verus!
