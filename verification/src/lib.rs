//! Account and credential management built on the age encryption format.
//!
//! - `handler`: the keyring error type and data types (fingerprints, users,
//!   identities, metadata) with the name and email rules.
//! - `agecore`: age encryption and decryption (public keys, passphrases, armor),
//!   key generation, key-file checks, and the hex, JSON and TOML encodings.
//! - `config`: the keyring directory layout.
//! - `domain`, `crypto`, `backend`, `account`: the account engine, its error and
//!   data types, its cryptographic operations and its storage abstraction.
pub mod account;
pub mod agecore;
pub mod backend;
pub mod config;
pub mod crypto;
pub mod digest;
pub mod domain;
pub mod handler;
pub mod rage;
pub mod secret;
pub mod text;

pub use agecore::{api, output};
pub use agecore::api::{check_encrypted_private_key, public_key_file_text, public_key_from_text, validate_public_key_string};
pub use agecore::crypto::{decrypt, decrypt_with_passphrase, encrypt, encrypt_armored, encrypt_multiple, encrypt_multiple_armored, encrypt_with_passphrase, generate_keypair};
pub use agecore::crypto::recipient::{parse_recipient_lines, scan_recipient_lines};
pub use agecore::output::{from_json, from_toml, hex_decode, hex_encode, to_json_pretty, to_toml_pretty};
pub use config::{ConfigLoader, KeyringPath, keyring_not_found, loader, path};
pub use handler::{error, types};
pub use handler::error::{AgeCredentialsError, Result};
pub use handler::types::{Fingerprint, Identity, KeyGenData, Metadata, UserID, validate_user_email, validate_user_name};
pub use secret::{SecretBytes, SecretText};
