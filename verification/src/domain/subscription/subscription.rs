use vstd::prelude::*;
use crate::domain::subscription::vo::{
    ProviderSubscriptionId, SubscriptionId, SubscriptionProvider, SubscriptionStatus,
};
use crate::domain::error::DomainError;
use crate::domain::types::{utc_now, UtcDateTime};
use crate::domain::user::vo::{UserId, UserPlan};

verus! {

/// A user's subscription at a provider.
#[derive(Debug)]
pub struct Subscription {
    pub id: SubscriptionId,
    pub user_id: UserId,
    pub provider: SubscriptionProvider,
    pub provider_subscription_id: ProviderSubscriptionId,
    pub status: SubscriptionStatus,
    pub plan: UserPlan,
    pub started_at: UtcDateTime,
    pub expires_at: UtcDateTime,
    pub created_at: UtcDateTime,
    pub updated_at: UtcDateTime,
}

impl Subscription {
    /// A subscription is active at `now` when its status is active and it
    /// expires strictly after `now`.
    pub open spec fn active_at(self, now: UtcDateTime) -> bool {
        self.status == SubscriptionStatus::Active && self.expires_at.is_after(now)
    }

    pub fn is_active_at(&self, now: UtcDateTime) -> (res: bool)
        ensures
            res == self.active_at(now),
    {
        match self.status {
            SubscriptionStatus::Active => self.expires_at.after(&now),
            _ => false,
        }
    }

    /// A subscription is active at an instant exactly when its status is
    /// active and it expires after that instant; in particular it is not
    /// active at any instant it has expired by.
    pub proof fn lemma_active_until_expiry(self, now: UtcDateTime)
        ensures
            self.expires_at.micros <= now.micros ==> !self.active_at(now),
            self.status != SubscriptionStatus::Active ==> !self.active_at(now),
            self.status == SubscriptionStatus::Active && self.expires_at.micros > now.micros
                ==> self.active_at(now),
    {
    }

    /// Whether the subscription is active now: it is judged at the instant
    /// the system clock gives, which is not before the Unix epoch. Only an
    /// active status can be active, and never one that expired by the
    /// epoch; a clock that cannot be read gives the error.
    pub fn is_active(&self) -> (res: Result<bool, DomainError>)
        ensures
            res matches Ok(b) ==> b ==> self.status == SubscriptionStatus::Active,
            res matches Ok(b) ==> exists|now: UtcDateTime|
                now.micros >= 0 && b == #[trigger] self.active_at(now),
            res matches Ok(b) ==> (self.expires_at.micros <= 0 ==> !b),
            res matches Err(e) ==> e is Unexpected,
    {
        let now = utc_now()?;
        Ok(self.is_active_at(now))
    }
}

} // verus!
