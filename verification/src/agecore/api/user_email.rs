//! The email rule.
pub use crate::handler::types::validate_user_email;
