//! The rules of a small library catalogue: what a valid author, book or
//! user is, how a request to list, show, create or delete one is decided,
//! and which response each outcome gets.
//!
//! - [`text`] and [`email`] hold the predicates on texts, [`validations`]
//!   the validated values built on them.
//! - [`routes`] holds the request shapes and the handlers. A handler is
//!   split where it meets the store, so that its decisions serve any store.
//! - [`store`] is a store in memory with its mathematical model, against
//!   which the handlers are stated and proved as a whole.
//! - [`response`] maps the outcome of a handler to a status and a body.
//! - [`identifier`] and [`pattern`] are the two places where another crate
//!   is asked: `uuid` to read an identifier, `regex` to match a pattern.
//! - [`models`] and [`configuration`] hold plain records.

pub mod configuration;
pub mod email;
pub mod identifier;
pub mod models;
pub mod pattern;
pub mod response;
pub mod routes;
pub mod store;
pub mod text;
pub mod validations;
