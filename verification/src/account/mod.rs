//! The account engine.
pub mod engine;

pub use engine::AccountEngine;
