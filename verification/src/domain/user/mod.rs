//! Users, their credentials and the value objects that describe them.
pub mod new_user;
pub mod user_auth;
pub mod vo;

#[allow(clippy::module_inception)]
pub mod user;

pub use new_user::NewUser;
pub use user::User;
