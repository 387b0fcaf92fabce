//! The data types of the account engine and their rules.
pub mod error;
pub mod fingerprint;
pub mod identity;
pub mod types;
pub mod validation;
