//! What the stores and the identity provider hold, in the domain's terms.
pub mod oauth;
pub mod subscription;
pub mod user;
