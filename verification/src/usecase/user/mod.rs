//! Reading and changing one's own account.
pub mod get_me;
pub mod update_name;
pub mod update_password;
pub mod update_plan;
