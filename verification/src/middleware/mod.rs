//! Request guards.
pub mod auth;
