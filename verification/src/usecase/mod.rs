//! The application's use cases.
pub mod auth;
pub mod repo;
pub mod user;
