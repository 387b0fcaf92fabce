//! Hexadecimal, JSON and TOML encodings.
pub mod ascii;
pub mod json;
pub mod toml;

pub use ascii::{hex_decode, hex_encode};
pub use json::{from_json, to_json_pretty};
pub use self::toml::{from_toml, to_toml_pretty};
