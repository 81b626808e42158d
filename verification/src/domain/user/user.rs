//! A stored user.
use vstd::prelude::*;
use crate::domain::error::DomainError;
use crate::domain::types::{utc_now, UtcDateTime};
use crate::domain::user::user_auth::UserAuth;
use crate::domain::user::vo::{UserId, UserName, UserPlan};

verus! {

/// A stored user with its credentials and plan.
#[derive(Debug)]
pub struct User {
    pub id: UserId,
    pub name: UserName,
    pub auth: UserAuth,
    pub plan: UserPlan,
    pub plan_expires_at: Option<UtcDateTime>,
    pub created_at: UtcDateTime,
    pub updated_at: UtcDateTime,
}

impl Clone for User {
    fn clone(&self) -> (res: Self)
        ensures
            res == *self,
    {
        User {
            id: self.id,
            name: self.name.clone(),
            auth: self.auth.clone(),
            plan: self.plan,
            plan_expires_at: self.plan_expires_at,
            created_at: self.created_at,
            updated_at: self.updated_at,
        }
    }
}

impl User {
    /// A user on the free plan, created and updated at `now`.
    pub fn new_at(id: UserId, name: UserName, auth: UserAuth, now: UtcDateTime) -> (res: Self)
        ensures
            res == (User {
                id,
                name,
                auth,
                plan: UserPlan::Free,
                plan_expires_at: None,
                created_at: now,
                updated_at: now,
            }),
    {
        User {
            id,
            name,
            auth,
            plan: UserPlan::Free,
            plan_expires_at: None,
            created_at: now,
            updated_at: now,
        }
    }

    /// A user on the free plan, created and updated now (by the system
    /// clock, whose failure gives the error).
    pub fn new(id: UserId, name: UserName, auth: UserAuth) -> (res: Result<Self, DomainError>)
        ensures
            res matches Ok(u) ==> {
                &&& u.id == id
                &&& u.name == name
                &&& u.auth == auth
                &&& u.plan == UserPlan::Free
                &&& u.plan_expires_at is None
                &&& u.created_at == u.updated_at
                &&& u.created_at.micros >= 0
            },
            res matches Err(e) ==> e is Unexpected,
    {
        let now = utc_now()?;
        Ok(Self::new_at(id, name, auth, now))
    }

    pub fn id(&self) -> (res: UserId)
        ensures
            res == self.id,
    {
        self.id
    }

    pub fn name(&self) -> (res: &UserName)
        ensures
            *res == self.name,
    {
        &self.name
    }

    pub fn auth(&self) -> (res: &UserAuth)
        ensures
            *res == self.auth,
    {
        &self.auth
    }

    pub fn created_at(&self) -> (res: &UtcDateTime)
        ensures
            *res == self.created_at,
    {
        &self.created_at
    }

    pub fn update_at(&self) -> (res: &UtcDateTime)
        ensures
            *res == self.updated_at,
    {
        &self.updated_at
    }

    /// Renames the user and stamps the change with `now`.
    pub fn change_name_at(&mut self, name: UserName, now: UtcDateTime)
        ensures
            *final(self) == (User {
                id: old(self).id,
                name,
                auth: old(self).auth,
                plan: old(self).plan,
                plan_expires_at: old(self).plan_expires_at,
                created_at: old(self).created_at,
                updated_at: now,
            }),
    {
        self.name = name;
        self.updated_at = now;
    }

    /// Renames the user and stamps the change with the current time; a
    /// clock that cannot be read leaves the user as it is.
    pub fn change_name(&mut self, name: UserName) -> (res: Result<(), DomainError>)
        ensures
            res is Ok ==> {
                &&& final(self).name == name
                &&& final(self).id == old(self).id
                &&& final(self).auth == old(self).auth
                &&& final(self).plan == old(self).plan
                &&& final(self).plan_expires_at == old(self).plan_expires_at
                &&& final(self).created_at == old(self).created_at
                &&& final(self).updated_at.micros >= 0
            },
            res matches Err(e) ==> e is Unexpected && *final(self) == *old(self),
    {
        let now = utc_now()?;
        self.change_name_at(name, now);
        Ok(())
    }
}

} // verus!
