//! Reading and changing one's own account.
use vstd::prelude::*;
use crate::domain::types::UtcDateTime;
use crate::usecase::user::get_me::{GetMeInput, GetMeOutput};
use crate::usecase::user::update_name::UpdateNameInput;
use crate::usecase::user::update_password::UpdatePasswordInput;

verus! {

pub struct GetMeResponse {
    pub user_id: i64,
    pub name: String,
    pub email: Option<String>,
    pub auth_kind: String,
    pub plan: String,
    pub plan_expires_at: Option<UtcDateTime>,
    pub created_at: UtcDateTime,
}

pub struct UpdatePasswordRequest {
    pub current_password: String,
    pub new_password: String,
}

pub struct UpdateNameRequest {
    pub new_name: String,
}

/// The signed-in user reads their own account.
pub fn get_me_input(subject: i64) -> (res: GetMeInput)
    ensures
        res.user_id == subject,
{
    GetMeInput { user_id: subject }
}

impl GetMeResponse {
    pub fn from_output(output: GetMeOutput) -> (res: Self)
        ensures
            res.user_id == output.user_id,
            res.name == output.name,
            res.email == output.email,
            res.auth_kind == output.auth_kind,
            res.plan == output.plan,
            res.plan_expires_at == output.plan_expires_at,
            res.created_at == output.created_at,
    {
        GetMeResponse {
            user_id: output.user_id,
            name: output.name,
            email: output.email,
            auth_kind: output.auth_kind,
            plan: output.plan,
            plan_expires_at: output.plan_expires_at,
            created_at: output.created_at,
        }
    }
}

impl UpdatePasswordRequest {
    /// The signed-in user changes their own password.
    pub fn into_input(self, subject: i64) -> (res: UpdatePasswordInput)
        ensures
            res.user_id == subject,
            res.current_password == self.current_password,
            res.new_password == self.new_password,
    {
        UpdatePasswordInput {
            user_id: subject,
            current_password: self.current_password,
            new_password: self.new_password,
        }
    }
}

impl UpdateNameRequest {
    /// The signed-in user renames their own account.
    pub fn into_input(self, subject: i64) -> (res: UpdateNameInput)
        ensures
            res.user_id == subject,
            res.new_name == self.new_name,
    {
        UpdateNameInput { user_id: subject, new_name: self.new_name }
    }
}

} // verus!
