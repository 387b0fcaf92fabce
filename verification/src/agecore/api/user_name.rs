//! The user-name rule.
pub use crate::handler::types::validate_user_name;
