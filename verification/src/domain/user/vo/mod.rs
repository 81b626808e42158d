//! Value objects of the user domain.
pub mod auth_method;
pub mod device_id;
pub mod email;
pub mod oauth_provider;
pub mod password_hash;
pub mod provider_user_id;
pub mod user_id;
pub mod user_name;
pub mod user_plan;

pub use auth_method::AuthMethod;
pub use device_id::DeviceId;
pub use email::Email;
pub use oauth_provider::OAuthProvider;
pub use password_hash::PasswordHash;
pub use provider_user_id::ProviderUserId;
pub use user_id::UserId;
pub use user_name::UserName;
pub use user_plan::UserPlan;
