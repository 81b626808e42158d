//! Users, credentials and sessions of an account service.
pub mod domain;
pub mod infra;
pub mod middleware;
pub mod presentation;
pub mod text;
pub mod usecase;
