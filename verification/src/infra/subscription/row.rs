//! Reading a stored subscription back into the domain.
use vstd::prelude::*;
use crate::domain::error::{concat_str, DomainError};
use crate::domain::subscription::vo::{
    ProviderSubscriptionId, SubscriptionId, SubscriptionProvider, SubscriptionStatus,
};
use crate::domain::subscription::Subscription;
use crate::domain::types::UtcDateTime;
use crate::domain::user::vo::{UserId, UserPlan};

verus! {

/// A subscription as the store holds it: enumerations as text.
pub struct SubscriptionRow {
    pub id: i64,
    pub user_id: i64,
    pub provider: String,
    pub provider_subscription_id: String,
    pub status: String,
    pub plan: String,
    pub started_at: UtcDateTime,
    pub expires_at: UtcDateTime,
    pub created_at: UtcDateTime,
    pub updated_at: UtcDateTime,
}

/// Reads the row's provider, status and plan (in that order); the first
/// that does not read is reported as an unexpected error naming it.
pub fn to_domain(row: &SubscriptionRow) -> (res: Result<Subscription, DomainError>)
    ensures
        SubscriptionProvider::parse_text(row.provider@) is None ==> (res matches Err(
            DomainError::Unexpected(s),
        ) && s@ == "unknow provider: "@ + row.provider@),
        SubscriptionProvider::parse_text(row.provider@) is Some && SubscriptionStatus::parse_text(
            row.status@,
        ) is None ==> (res matches Err(DomainError::Unexpected(s)) && s@ == "unknown status: "@
            + row.status@),
        SubscriptionProvider::parse_text(row.provider@) is Some && SubscriptionStatus::parse_text(
            row.status@,
        ) is Some && UserPlan::parse_text(row.plan@) is None ==> (res matches Err(
            DomainError::Unexpected(s),
        ) && s@ == "unknown plan: "@ + row.plan@),
        res matches Ok(sub) ==> {
            &&& Some(sub.provider) == SubscriptionProvider::parse_text(row.provider@)
            &&& Some(sub.status) == SubscriptionStatus::parse_text(row.status@)
            &&& Some(sub.plan) == UserPlan::parse_text(row.plan@)
            &&& sub.id@ == row.id
            &&& sub.user_id@ == row.user_id
            &&& sub.provider_subscription_id@ == row.provider_subscription_id@
            &&& sub.started_at == row.started_at
            &&& sub.expires_at == row.expires_at
            &&& sub.created_at == row.created_at
            &&& sub.updated_at == row.updated_at
        },
        res is Ok <==> (SubscriptionProvider::parse_text(row.provider@) is Some
            && SubscriptionStatus::parse_text(row.status@) is Some && UserPlan::parse_text(
            row.plan@,
        ) is Some),
{
    let provider = match SubscriptionProvider::from_str(row.provider.as_str()) {
        Some(p) => p,
        None => {
            return Err(DomainError::Unexpected(concat_str("unknow provider: ", row.provider.as_str())));
        },
    };
    let status = match SubscriptionStatus::from_str(row.status.as_str()) {
        Some(s) => s,
        None => {
            return Err(DomainError::Unexpected(concat_str("unknown status: ", row.status.as_str())));
        },
    };
    let plan = match UserPlan::from_str(row.plan.as_str()) {
        Some(p) => p,
        None => {
            return Err(DomainError::Unexpected(concat_str("unknown plan: ", row.plan.as_str())));
        },
    };
    Ok(
        Subscription {
            id: SubscriptionId::new(row.id),
            user_id: UserId::new(row.user_id),
            provider,
            provider_subscription_id: ProviderSubscriptionId::new(
                row.provider_subscription_id.clone(),
            ),
            status,
            plan,
            started_at: row.started_at,
            expires_at: row.expires_at,
            created_at: row.created_at,
            updated_at: row.updated_at,
        },
    )
}

} // verus!
