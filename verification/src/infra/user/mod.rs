//! The user store's rows.
pub mod user_row;
