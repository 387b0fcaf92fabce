//! Cryptographic operations on age: encryption, decryption, passphrases and keys.
pub mod armor;
pub mod decrypt;
pub mod encrypt;
pub mod keygen;
pub mod passphrase;
pub mod recipient;

pub use armor::{encrypt_armored, encrypt_multiple_armored};
pub use decrypt::decrypt;
pub use encrypt::{encrypt, encrypt_multiple};
pub use keygen::generate_keypair;
pub use passphrase::{decrypt_with_passphrase, encrypt_with_passphrase};
