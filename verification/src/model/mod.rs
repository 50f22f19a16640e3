//! Rows as they are written to the store.

pub mod comment;
pub mod user;
pub mod user_group;
