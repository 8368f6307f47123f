//! The records that the catalogue keeps.

pub mod author;
pub mod book;
pub mod user;
