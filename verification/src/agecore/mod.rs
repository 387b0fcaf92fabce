//! Cryptographic operations, key-file checks and output encodings.
pub mod api;
pub mod crypto;
pub mod output;
