//! Key material on disk: the checks and contents behind reading and writing
//! encrypted private keys and public keys (the file access itself is the caller's).
pub mod private_keys;
pub mod public_keys;
pub mod user_email;
pub mod user_name;

pub use private_keys::check_encrypted_private_key;
pub use public_keys::{public_key_file_text, public_key_from_text, validate_public_key_string};
