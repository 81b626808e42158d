//! Request and response shapes of the HTTP handlers, and what the handlers
//! compute between the two.
pub mod auth;
pub mod mobile;
pub mod oauth;
pub mod user;
