//! TOML encoding of any serializable value.
use vstd::prelude::*;
use crate::agecore::output::json::{memory_error, memory_serialization_error};
use crate::handler::error::Result;

verus! {

/// `toml::to_string_pretty`, with a failure turned into its message.  What
/// text comes out depends on the value's `Serialize` impl and is not stated.
#[verifier::external_body]
fn toml_to_string_pretty<T: serde::Serialize>(value: &T) -> (r: std::result::Result<String, String>) {
    match toml::to_string_pretty(value) {
        Ok(s) => Ok(s),
        Err(e) => Err(e.to_string()),
    }
}

/// `toml::from_str`, with a failure turned into its message.  Whether and
/// how the text parses depends on the target's `Deserialize` impl and is not stated.
#[verifier::external_body]
fn toml_from_str<T: for<'de> serde::Deserialize<'de>>(toml_str: &str) -> (r: std::result::Result<T, String>) {
    match toml::from_str(toml_str) {
        Ok(v) => Ok(v),
        Err(e) => Err(e.to_string()),
    }
}

/// Pretty-printed TOML of `value`; a failure is a `Serialization` error for
/// "toml" at `<memory>`.
pub fn to_toml_pretty<T: serde::Serialize>(value: &T) -> (r: Result<String>)
    ensures
        r matches Err(e) ==> exists|m: Seq<char>| memory_serialization_error(e, "toml"@, m),
{
    match toml_to_string_pretty(value) {
        Ok(s) => Ok(s),
        Err(m) => Err(memory_error("toml", m)),
    }
}

/// Parses TOML text into a value; a failure is a `Serialization` error for
/// "toml" at `<memory>`.
pub fn from_toml<T: for<'de> serde::Deserialize<'de>>(toml_str: &str) -> (r: Result<T>)
    ensures
        r matches Err(e) ==> exists|m: Seq<char>| memory_serialization_error(e, "toml"@, m),
{
    match toml_from_str(toml_str) {
        Ok(v) => Ok(v),
        Err(m) => Err(memory_error("toml", m)),
    }
}

} // verus!
