//! Refresh tokens: long-lived credentials that are stored only as a hash.
pub mod vo;

#[allow(clippy::module_inception)]
pub mod refresh_token;

pub use refresh_token::RefreshToken;
