//! A user that is about to be stored.
use vstd::prelude::*;
use crate::domain::user::user_auth::AuthMethod;
use crate::domain::user::vo::{DeviceId, Email, OAuthProvider, PasswordHash, ProviderUserId, UserName};

verus! {

/// A user not stored yet: its name and how it will sign in.
#[derive(Debug)]
pub struct NewUser {
    pub name: UserName,
    pub auth: NewUserAuth,
}

/// The credentials of a user not stored yet.
#[derive(Debug)]
pub struct NewUserAuth {
    pub method: AuthMethod,
}

impl Clone for NewUserAuth {
    fn clone(&self) -> (res: Self)
        ensures
            res == *self,
    {
        NewUserAuth { method: self.method.clone() }
    }
}

impl Clone for NewUser {
    fn clone(&self) -> (res: Self)
        ensures
            res == *self,
    {
        NewUser { name: self.name.clone(), auth: self.auth.clone() }
    }
}

impl NewUser {
    pub fn new_password(name: UserName, email: Email, password_hash: PasswordHash) -> (res: Self)
        ensures
            res.name == name,
            res.auth.method == (AuthMethod::Password { email, password_hash }),
    {
        NewUser { name, auth: NewUserAuth { method: AuthMethod::Password { email, password_hash } } }
    }

    pub fn new_oauth(
        name: UserName,
        email: Option<Email>,
        provider: OAuthProvider,
        provider_user_id: ProviderUserId,
    ) -> (res: Self)
        ensures
            res.name == name,
            res.auth.method == (AuthMethod::OAuth { email, provider, provider_user_id }),
    {
        NewUser {
            name,
            auth: NewUserAuth { method: AuthMethod::OAuth { email, provider, provider_user_id } },
        }
    }

    pub fn new_mobile_device(name: UserName, device_id: DeviceId) -> (res: Self)
        ensures
            res.name == name,
            res.auth.method == (AuthMethod::MobileDevice { device_id }),
    {
        NewUser { name, auth: NewUserAuth { method: AuthMethod::MobileDevice { device_id } } }
    }
}

} // verus!
