//! Trusted boundary around `serde_json`: the opaque JSON value type, names
//! for what its pure operations return, and the wrappers the verified
//! decode and emit logic calls.

use vstd::prelude::*;

verus! {

#[verifier::external_type_specification]
#[verifier::external_body]
pub struct ExValue(serde_json::Value);

#[verifier::external_type_specification]
#[verifier::external_body]
pub struct ExJsonError(serde_json::Error);

/// What `serde_json::from_str::<Value>` yields on a text: the parsed value,
/// or `None` where the text is not a well-formed JSON document.
pub uninterp spec fn json_doc(text: Seq<char>) -> Option<serde_json::Value>;

/// What `serde_json::Value::get` yields with a string key: the member of
/// that name, or `None` where the value is not an object or lacks the key.
pub uninterp spec fn json_get(v: serde_json::Value, key: Seq<char>) -> Option<serde_json::Value>;

/// What `serde_json::Value::as_str` yields: the text of a JSON string
/// value, or `None` for any other kind of value.
pub uninterp spec fn json_as_str(v: serde_json::Value) -> Option<Seq<char>>;

/// What `serde_json::Value::is_object` yields: whether the value is a JSON
/// object, a function of the value alone.
pub uninterp spec fn json_is_object(v: serde_json::Value) -> bool;

/// What `serde_json::to_string` yields on a `Value` when it succeeds: the
/// compact one-line rendering, a function of the value alone.
pub uninterp spec fn json_text(v: serde_json::Value) -> Seq<char>;

/// Relies on `serde_json::from_str::<Value>`: parsing is a deterministic
/// function of the text, and fails exactly on malformed documents. Note
/// that a duplicated object member keeps its last occurrence, where a
/// field-by-field decoder would reject the document.
#[verifier::external_body]
pub fn parse_json(text: &str) -> (r: Result<serde_json::Value, serde_json::Error>)
    ensures
        match r {
            Ok(v) => json_doc(text@) == Some(v),
            Err(_) => json_doc(text@) is None,
        },
{
    serde_json::from_str(text)
}

/// Relies on `serde_json::Value::get` with a string index: `Some` of the
/// member exactly when the value is an object that has the key.
#[verifier::external_body]
pub fn get_member<'a>(v: &'a serde_json::Value, key: &str) -> (r: Option<&'a serde_json::Value>)
    ensures
        match r {
            Some(f) => json_get(*v, key@) == Some(*f),
            None => json_get(*v, key@) is None,
        },
{
    v.get(key)
}

/// Relies on `serde_json::Value::as_str`: `Some` of the text exactly when
/// the value is a JSON string; `str::to_owned` copies that text.
#[verifier::external_body]
pub fn member_string(v: &serde_json::Value) -> (r: Option<String>)
    ensures
        match r {
            Some(s) => json_as_str(*v) == Some(s@),
            None => json_as_str(*v) is None,
        },
{
    match v.as_str() {
        Some(s) => Some(s.to_owned()),
        None => None,
    }
}

/// Relies on `serde_json::Value::is_object`: `true` exactly for a JSON
/// object.
#[verifier::external_body]
pub fn is_object(v: &serde_json::Value) -> (r: bool)
    ensures
        r == json_is_object(*v),
{
    v.is_object()
}

/// Relies on `serde_json::Value`'s derived `Clone`: the copy is the same
/// value, field for field.
#[verifier::external_body]
pub fn clone_value(v: &serde_json::Value) -> (r: serde_json::Value)
    ensures
        r == *v,
{
    v.clone()
}

/// Relies on `serde_json::Value::Null` standing for JSON null, whose
/// compact rendering is the text `null`.
#[verifier::external_body]
pub fn null_value() -> (r: serde_json::Value)
    ensures
        json_text(r) == "null"@,
{
    serde_json::Value::Null
}

/// Relies on `serde_json::to_string` on a `Value`: it always succeeds — the
/// writer is a `Vec`, numbers are finite, object keys are strings — and the
/// text is the compact rendering of the value, a function of the value
/// alone.
#[verifier::external_body]
pub fn value_to_json(v: &serde_json::Value) -> (r: Result<String, serde_json::Error>)
    ensures
        r is Ok,
        match r {
            Ok(s) => s@ == json_text(*v),
            Err(_) => true,
        },
{
    serde_json::to_string(v)
}

/// Relies on `serde_json::Error`'s `Display` impl for an operator-readable
/// message; nothing is promised of the text.
#[verifier::external_body]
pub fn error_message(e: &serde_json::Error) -> String {
    format!("{}", e)
}

} // verus!
