//! The boundary to `serde_json`.
//!
//! JSON values stay `serde_json::Value`s: the protocol logic carries them through
//! and looks into them only by the handful of operations below. Each operation
//! is a thin call into `serde_json` whose contract is trusted, not proved. What
//! an operation returns is a function of its arguments alone, so each result
//! has a name that contracts elsewhere in the crate can speak of.

use vstd::prelude::*;

verus! {

#[verifier::external_type_specification]
#[verifier::external_body]
pub struct ExValue(serde_json::Value);

#[verifier::external_type_specification]
#[verifier::external_body]
pub struct ExJsonError(serde_json::Error);

/// What parsing a text as one complete JSON document gives.
pub uninterp spec fn json_parse(text: Seq<char>) -> Result<serde_json::Value, serde_json::Error>;

/// The compact serialisation of a JSON value.
pub uninterp spec fn json_text(v: serde_json::Value) -> Result<Seq<char>, serde_json::Error>;

/// The message that a `serde_json` error displays.
pub uninterp spec fn json_error_text(e: serde_json::Error) -> Seq<char>;

/// The JSON string with the given content.
pub uninterp spec fn json_string(s: Seq<char>) -> serde_json::Value;

/// The JSON object with the one given member.
pub uninterp spec fn json_object(key: Seq<char>, value: serde_json::Value) -> serde_json::Value;

/// The content of a JSON string; `None` for every other kind of value.
pub uninterp spec fn json_str(v: serde_json::Value) -> Option<Seq<char>>;

/// The member of a JSON object under a key; `None` where the value is no
/// object or has no such member.
pub uninterp spec fn json_member(v: serde_json::Value, key: Seq<char>) -> Option<serde_json::Value>;

/// Whether a value is JSON `null`.
pub uninterp spec fn json_is_null(v: serde_json::Value) -> bool;

/// A JSON integer that fits `i64`; `None` for every other value.
pub uninterp spec fn json_i64(v: serde_json::Value) -> Option<i64>;

/// A non-negative JSON integer that fits `u64`; `None` for every other value.
pub uninterp spec fn json_u64(v: serde_json::Value) -> Option<u64>;

/// `Clone` for `Value`. Trusted: the copy is the same JSON value.
pub assume_specification[ <serde_json::Value as Clone>::clone ](v: &serde_json::Value) -> (r:
    serde_json::Value)
    ensures
        r == *v,
;

/// `serde_json::from_str` at type `Value`. Trusted: the result is the named
/// parse of the text. The parser bounds its own recursion and reports every
/// malformed input as an error.
#[verifier::external_body]
pub(crate) fn parse(text: &str) -> (r: Result<serde_json::Value, serde_json::Error>)
    ensures
        r == json_parse(text@),
{
    serde_json::from_str::<serde_json::Value>(text)
}

/// `serde_json::to_string` at type `Value`. Trusted: the result is the named
/// compact serialisation of the value.
#[verifier::external_body]
pub(crate) fn serialize(v: &serde_json::Value) -> (r: Result<String, serde_json::Error>)
    ensures
        match r {
            Ok(s) => json_text(*v) == Ok::<Seq<char>, serde_json::Error>(s@),
            Err(e) => json_text(*v) == Err::<Seq<char>, serde_json::Error>(e),
        },
{
    serde_json::to_string(v)
}

/// The `Display` text of a `serde_json::Error`. Trusted: the result is the
/// named message of the error.
#[verifier::external_body]
pub(crate) fn error_text(e: &serde_json::Error) -> (r: String)
    ensures
        r@ == json_error_text(*e),
{
    e.to_string()
}

/// `Value::from(&str)`, which builds `Value::String`. Trusted: the result is
/// the named JSON string, and reading it back as a string gives the content.
#[verifier::external_body]
pub(crate) fn string_value(s: &str) -> (r: serde_json::Value)
    ensures
        r == json_string(s@),
        json_str(r) == Some(s@),
{
    serde_json::Value::from(s)
}

/// `Value::from_iter` over one key-value pair, which builds `Value::Object`.
/// Trusted: the result is the named one-member object, and looking the key
/// up in it gives the value.
#[verifier::external_body]
pub(crate) fn object_value(key: &str, value: serde_json::Value) -> (r: serde_json::Value)
    ensures
        r == json_object(key@, value),
        json_member(r, key@) == Some(value),
{
    serde_json::Value::from_iter([(key, value)])
}

/// `Value::as_str`. Trusted: the result is the named string content.
#[verifier::external_body]
pub(crate) fn as_str(v: &serde_json::Value) -> (r: Option<&str>)
    ensures
        match r {
            Some(s) => json_str(*v) == Some(s@),
            None => json_str(*v) is None,
        },
{
    v.as_str()
}

/// `Value::get` with a string key, the found member cloned. Trusted: the
/// result is the named member.
#[verifier::external_body]
pub(crate) fn member(v: &serde_json::Value, key: &str) -> (r: Option<serde_json::Value>)
    ensures
        r == json_member(*v, key@),
{
    v.get(key).cloned()
}

/// `Value::is_null`. Trusted: the result is the named test.
#[verifier::external_body]
pub(crate) fn is_null(v: &serde_json::Value) -> (r: bool)
    ensures
        r == json_is_null(*v),
{
    v.is_null()
}

/// `Value::as_i64`. Trusted: the result is the named integer.
#[verifier::external_body]
pub(crate) fn as_i64(v: &serde_json::Value) -> (r: Option<i64>)
    ensures
        r == json_i64(*v),
{
    v.as_i64()
}

/// `Value::as_u64`. Trusted: the result is the named integer.
#[verifier::external_body]
pub(crate) fn as_u64(v: &serde_json::Value) -> (r: Option<u64>)
    ensures
        r == json_u64(*v),
{
    v.as_u64()
}

} // verus!
