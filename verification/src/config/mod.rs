//! Keyring configuration: the directory layout and the metadata file.
pub mod loader;
pub mod path;

pub use loader::ConfigLoader;
pub use path::{KeyringPath, keyring_not_found};
