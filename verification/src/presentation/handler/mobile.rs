//! Mobile-device sign-in.
use vstd::prelude::*;
use crate::usecase::auth::sign_up_with_mobile_device::{
    SignUpWithMobileDeviceInput, SignUpWithMobileDeviceOutput,
};

verus! {

pub struct MobileDeviceRequest {
    pub device_id: String,
    pub name: Option<String>,
}

pub struct MobileDeviceResponse {
    pub user_id: i64,
    pub access_token: String,
    pub refresh_token: String,
    pub is_new_user: bool,
}

impl MobileDeviceRequest {
    pub fn into_input(self) -> (res: SignUpWithMobileDeviceInput)
        ensures
            res.device_id == self.device_id,
            res.name == self.name,
    {
        SignUpWithMobileDeviceInput { device_id: self.device_id, name: self.name }
    }
}

impl MobileDeviceResponse {
    pub fn from_output(output: SignUpWithMobileDeviceOutput) -> (res: Self)
        ensures
            res.user_id == output.user_id,
            res.access_token == output.access_token,
            res.refresh_token == output.refresh_token,
            res.is_new_user == output.is_new_user,
    {
        MobileDeviceResponse {
            user_id: output.user_id,
            access_token: output.access_token,
            refresh_token: output.refresh_token,
            is_new_user: output.is_new_user,
        }
    }
}

} // verus!
