//! Request handling decisions.
pub mod user;
