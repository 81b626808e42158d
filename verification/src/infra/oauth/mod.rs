//! Identity providers.
pub mod google;
