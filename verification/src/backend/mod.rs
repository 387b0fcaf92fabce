//! The storage abstraction behind the account engine.
pub mod traits;

pub use traits::AccountBackend;
