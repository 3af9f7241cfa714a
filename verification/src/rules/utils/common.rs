//! Argument replacement, shared by several rules.
pub use crate::utils::replace_argument;
