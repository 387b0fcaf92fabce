//! JSON encoding of any serializable value.
use vstd::prelude::*;
use crate::handler::error::{AgeCredentialsError, Result};

verus! {

/// `serde_json::to_string_pretty`, with a failure turned into its message.  What
/// text comes out depends on the value's `Serialize` impl and is not stated.
#[verifier::external_body]
fn json_to_string_pretty<T: serde::Serialize>(value: &T) -> (r: std::result::Result<String, String>) {
    match serde_json::to_string_pretty(value) {
        Ok(s) => Ok(s),
        Err(e) => Err(e.to_string()),
    }
}

/// `serde_json::from_str`, with a failure turned into its message.  Whether and
/// how the text parses depends on the target's `Deserialize` impl and is not stated.
#[verifier::external_body]
fn json_from_str<T: for<'de> serde::Deserialize<'de>>(json: &str) -> (r: std::result::Result<T, String>) {
    match serde_json::from_str(json) {
        Ok(v) => Ok(v),
        Err(e) => Err(e.to_string()),
    }
}

/// A serialization error about in-memory `target` data, carrying `source`.
pub open spec fn memory_serialization_error(e: AgeCredentialsError, target: Seq<char>, source: Seq<char>) -> bool {
    e matches AgeCredentialsError::Serialization { target: t, path, source: s } && t@ == target
        && path@ == "<memory>"@ && s@ == source
}

/// The serialization error for in-memory `target` data with the given message.
pub fn memory_error(target: &'static str, source: String) -> (e: AgeCredentialsError)
    ensures
        memory_serialization_error(e, target@, source@),
{
    AgeCredentialsError::Serialization { target, path: "<memory>".to_owned(), source }
}

/// Pretty-printed JSON of `value`; a failure is a `Serialization` error for
/// "json" at `<memory>`.
pub fn to_json_pretty<T: serde::Serialize>(value: &T) -> (r: Result<String>)
    ensures
        r matches Err(e) ==> exists|m: Seq<char>| memory_serialization_error(e, "json"@, m),
{
    match json_to_string_pretty(value) {
        Ok(s) => Ok(s),
        Err(m) => Err(memory_error("json", m)),
    }
}

/// Parses JSON text into a value; a failure is a `Serialization` error for
/// "json" at `<memory>`.
pub fn from_json<T: for<'de> serde::Deserialize<'de>>(json: &str) -> (r: Result<T>)
    ensures
        r matches Err(e) ==> exists|m: Seq<char>| memory_serialization_error(e, "json"@, m),
{
    match json_from_str(json) {
        Ok(v) => Ok(v),
        Err(m) => Err(memory_error("json", m)),
    }
}

} // verus!
