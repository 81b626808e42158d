//! The HTTP face of the service: request and response shapes and error answers.
pub mod error;
pub mod error_code;
pub mod handler;
