//! The subscription store's rows.
pub mod row;
