//! Entities, value objects and errors of the account domain.
pub mod error;
pub mod refresh_token;
pub mod subscription;
pub mod types;
pub mod user;
