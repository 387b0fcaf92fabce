//! Cryptographic operations of the account engine, reporting `AccountError`.
pub mod armor;
pub mod ascii;
pub mod decrypt;
pub mod keygen;
pub mod passphrase;

pub use armor::{encrypt, encrypt_armored, encrypt_multiple_armored};
pub use ascii::{hex_decode, hex_encode};
pub use decrypt::{decrypt, decrypt_with_key_bytes};
pub use keygen::generate_keypair;
pub use passphrase::{decrypt_with_passphrase, encrypt_with_passphrase};
