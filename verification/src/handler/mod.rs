//! Error handling and the core data types of the keyring.
pub mod error;
pub mod types;
