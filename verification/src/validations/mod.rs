//! Validated value objects: each wraps a text that has passed its field's rules.

pub mod author;
pub mod book;
pub mod user;
