//! The credentials an account signs in with.
use vstd::prelude::*;
use crate::domain::error::DomainError;
use crate::domain::types::{utc_now, UtcDateTime};
use crate::domain::user::vo::{DeviceId, Email, OAuthProvider, PasswordHash, ProviderUserId, UserId};

verus! {

/// How an account proves its identity.
#[derive(Debug)]
#[allow(inconsistent_fields)]
pub enum AuthMethod {
    /// An e-mail address and a password (stored as a hash).
    Password { email: Email, password_hash: PasswordHash },
    /// An identity at an OAuth provider, with the address it reported, if any.
    OAuth { email: Option<Email>, provider: OAuthProvider, provider_user_id: ProviderUserId },
    /// The identifier of a mobile device.
    MobileDevice { device_id: DeviceId },
}

impl Clone for AuthMethod {
    fn clone(&self) -> (res: Self)
        ensures
            res == *self,
    {
        match self {
            AuthMethod::Password { email, password_hash } => AuthMethod::Password {
                email: email.clone(),
                password_hash: password_hash.clone(),
            },
            AuthMethod::OAuth { email, provider, provider_user_id } => AuthMethod::OAuth {
                email: match email {
                    Some(e) => Some(e.clone()),
                    None => None,
                },
                provider: *provider,
                provider_user_id: provider_user_id.clone(),
            },
            AuthMethod::MobileDevice { device_id } => AuthMethod::MobileDevice {
                device_id: device_id.clone(),
            },
        }
    }
}

/// The address an authentication method carries, if any.
pub open spec fn method_email(m: AuthMethod) -> Option<Email> {
    match m {
        AuthMethod::Password { email, .. } => Some(email),
        AuthMethod::OAuth { email, .. } => email,
        AuthMethod::MobileDevice { .. } => None,
    }
}

/// The credentials of one user, with when they were created and last changed.
#[derive(Debug)]
pub struct UserAuth {
    pub user_id: UserId,
    pub auth_method: AuthMethod,
    pub created_at: UtcDateTime,
    pub updated_at: UtcDateTime,
}

impl Clone for UserAuth {
    fn clone(&self) -> (res: Self)
        ensures
            res == *self,
    {
        UserAuth {
            user_id: self.user_id,
            auth_method: self.auth_method.clone(),
            created_at: self.created_at,
            updated_at: self.updated_at,
        }
    }
}

impl UserAuth {
    /// Password credentials, created and updated at `now`.
    pub fn new_password_at(
        user_id: UserId,
        email: Email,
        password_hash: PasswordHash,
        now: UtcDateTime,
    ) -> (res: Self)
        ensures
            res == (UserAuth {
                user_id,
                auth_method: AuthMethod::Password { email, password_hash },
                created_at: now,
                updated_at: now,
            }),
    {
        UserAuth {
            user_id,
            auth_method: AuthMethod::Password { email, password_hash },
            created_at: now,
            updated_at: now,
        }
    }

    /// Password credentials, created and updated now (by the system clock,
    /// whose failure gives the error).
    pub fn new_password(user_id: UserId, email: Email, password_hash: PasswordHash) -> (res: Result<Self, DomainError>)
        ensures
            res matches Ok(a) ==> {
                &&& a.user_id == user_id
                &&& a.auth_method == (AuthMethod::Password { email, password_hash })
                &&& a.created_at == a.updated_at
                &&& a.created_at.micros >= 0
            },
            res matches Err(e) ==> e is Unexpected,
    {
        let now = utc_now()?;
        Ok(Self::new_password_at(user_id, email, password_hash, now))
    }

    /// OAuth credentials, created and updated at `now`.
    pub fn new_oauth_at(
        user_id: UserId,
        email: Option<Email>,
        provider: OAuthProvider,
        provider_user_id: ProviderUserId,
        now: UtcDateTime,
    ) -> (res: Self)
        ensures
            res == (UserAuth {
                user_id,
                auth_method: AuthMethod::OAuth { email, provider, provider_user_id },
                created_at: now,
                updated_at: now,
            }),
    {
        UserAuth {
            user_id,
            auth_method: AuthMethod::OAuth { email, provider, provider_user_id },
            created_at: now,
            updated_at: now,
        }
    }

    /// OAuth credentials, created and updated now (by the system clock,
    /// whose failure gives the error).
    pub fn new_oauth(
        user_id: UserId,
        email: Option<Email>,
        provider: OAuthProvider,
        provider_user_id: ProviderUserId,
    ) -> (res: Result<Self, DomainError>)
        ensures
            res matches Ok(a) ==> {
                &&& a.user_id == user_id
                &&& a.auth_method == (AuthMethod::OAuth { email, provider, provider_user_id })
                &&& a.created_at == a.updated_at
                &&& a.created_at.micros >= 0
            },
            res matches Err(e) ==> e is Unexpected,
    {
        let now = utc_now()?;
        Ok(Self::new_oauth_at(user_id, email, provider, provider_user_id, now))
    }

    /// Mobile-device credentials, created and updated at `now`.
    pub fn new_mobile_device_at(user_id: UserId, device_id: DeviceId, now: UtcDateTime) -> (res: Self)
        ensures
            res == (UserAuth {
                user_id,
                auth_method: AuthMethod::MobileDevice { device_id },
                created_at: now,
                updated_at: now,
            }),
    {
        UserAuth {
            user_id,
            auth_method: AuthMethod::MobileDevice { device_id },
            created_at: now,
            updated_at: now,
        }
    }

    /// Mobile-device credentials, created and updated now (by the system
    /// clock, whose failure gives the error).
    pub fn new_mobile_device(user_id: UserId, device_id: DeviceId) -> (res: Result<Self, DomainError>)
        ensures
            res matches Ok(a) ==> {
                &&& a.user_id == user_id
                &&& a.auth_method == (AuthMethod::MobileDevice { device_id })
                &&& a.created_at == a.updated_at
                &&& a.created_at.micros >= 0
            },
            res matches Err(e) ==> e is Unexpected,
    {
        let now = utc_now()?;
        Ok(Self::new_mobile_device_at(user_id, device_id, now))
    }

    /// The address of the account, if its method carries one.
    pub fn email(&self) -> (res: Option<&Email>)
        ensures
            match res {
                Some(e) => method_email(self.auth_method) == Some(*e),
                None => method_email(self.auth_method) is None,
            },
    {
        match &self.auth_method {
            AuthMethod::Password { email, .. } => Some(email),
            AuthMethod::OAuth { email, .. } => email.as_ref(),
            AuthMethod::MobileDevice { .. } => None,
        }
    }

    /// Replaces the password hash of password credentials, keeping the
    /// address and stamping the change with `now`. Credentials of any other
    /// kind are left as they are and refused.
    pub fn change_password_at(&mut self, new_password_hash: PasswordHash, now: UtcDateTime) -> (res:
        Result<(), DomainError>)
        ensures
            old(self).auth_method is Password <==> res is Ok,
            res is Ok ==> *final(self) == (UserAuth {
                user_id: old(self).user_id,
                auth_method: AuthMethod::Password {
                    email: old(self).auth_method->Password_email,
                    password_hash: new_password_hash,
                },
                created_at: old(self).created_at,
                updated_at: now,
            }),
            res matches Err(e) ==> {
                &&& e is NotPasswordAuthUser
                &&& *final(self) == *old(self)
            },
    {
        match &self.auth_method {
            AuthMethod::Password { email, .. } => {
                self.auth_method = AuthMethod::Password {
                    email: email.clone(),
                    password_hash: new_password_hash,
                };
                self.updated_at = now;
                Ok(())
            },
            AuthMethod::OAuth { .. } => Err(DomainError::NotPasswordAuthUser),
            AuthMethod::MobileDevice { .. } => Err(DomainError::NotPasswordAuthUser),
        }
    }

    /// Replaces the password hash of password credentials, keeping the
    /// address and stamping the change with the current time. Credentials
    /// of any other kind are left as they are and refused; a clock that
    /// cannot be read leaves them as they are too.
    pub fn change_password(&mut self, new_password_hash: PasswordHash) -> (res: Result<
        (),
        DomainError,
    >)
        ensures
            old(self).auth_method !is Password ==> (res matches Err(DomainError::NotPasswordAuthUser)),
            res is Ok ==> {
                &&& final(self).auth_method == (AuthMethod::Password {
                    email: old(self).auth_method->Password_email,
                    password_hash: new_password_hash,
                })
                &&& final(self).user_id == old(self).user_id
                &&& final(self).created_at == old(self).created_at
            },
            res is Ok ==> old(self).auth_method is Password,
            res matches Err(e) ==> {
                &&& (e is NotPasswordAuthUser || e is Unexpected)
                &&& *final(self) == *old(self)
            },
    {
        match &self.auth_method {
            AuthMethod::Password { .. } => {},
            AuthMethod::OAuth { .. } => {
                return Err(DomainError::NotPasswordAuthUser);
            },
            AuthMethod::MobileDevice { .. } => {
                return Err(DomainError::NotPasswordAuthUser);
            },
        }
        let now = utc_now()?;
        self.change_password_at(new_password_hash, now)
    }
}

} // verus!
