//! Changing the plan of an account.
use vstd::prelude::*;
use crate::domain::error::{concat_str, DomainError};
use crate::domain::types::UtcDateTime;
use crate::domain::user::vo::{UserId, UserPlan};
use crate::usecase::repo::{mismatched_reply, RepoReply, RepoRequest, Step};

verus! {

pub struct UpdatePlanInput {
    pub user_id: i64,
    pub plan: String,
    pub plan_expires_at: Option<UtcDateTime>,
}

/// Where a plan change stands between two requests.
pub enum UpdatePlanState {
    /// The user was asked for.
    AwaitingUser { user_id: UserId, plan: String, plan_expires_at: Option<UtcDateTime> },
    /// The new plan was handed over for storing.
    AwaitingUpdate,
}

pub struct UpdatePlanUsecase {}

impl UpdatePlanUsecase {
    pub fn new() -> (res: Self) {
        UpdatePlanUsecase {  }
    }

    /// Asks for the user.
    pub fn start(&self, input: UpdatePlanInput) -> (res: Step<UpdatePlanState, ()>)
        ensures
            res matches Step::Perform(
                UpdatePlanState::AwaitingUser { user_id, plan, plan_expires_at },
                RepoRequest::FindUserById { user_id: asked },
            ) && user_id@ == input.user_id && asked == user_id && plan == input.plan
                && plan_expires_at == input.plan_expires_at,
    {
        let user_id = UserId::new(input.user_id);
        Step::Perform(
            UpdatePlanState::AwaitingUser {
                user_id,
                plan: input.plan,
                plan_expires_at: input.plan_expires_at,
            },
            RepoRequest::FindUserById { user_id },
        )
    }

    /// Once the user is known to exist, reads the plan name and stores the
    /// plan with its expiry; an unknown plan name is an unexpected error.
    pub fn resume(&self, state: UpdatePlanState, reply: RepoReply) -> (res: Step<UpdatePlanState, ()>)
        ensures
            match (state, reply) {
                (UpdatePlanState::AwaitingUser { .. }, RepoReply::User(Err(e))) => res == Step::<
                    UpdatePlanState,
                    (),
                >::Finished(Err(e)),
                (UpdatePlanState::AwaitingUser { .. }, RepoReply::User(Ok(None))) => res matches Step::Finished(
                    Err(DomainError::UserNotFound),
                ),
                (
                    UpdatePlanState::AwaitingUser { user_id, plan, plan_expires_at },
                    RepoReply::User(Ok(Some(_))),
                ) => match UserPlan::parse_text(plan@) {
                    Some(p) => res matches Step::Perform(
                        UpdatePlanState::AwaitingUpdate,
                        RepoRequest::UpdateUserPlan { user_id: u, plan: stored, plan_expires_at: e },
                    ) && u == user_id && stored == p && e == plan_expires_at,
                    None => res matches Step::Finished(Err(DomainError::Unexpected(s))) && s@ == "unknown plan: "@ + plan@,
                },
                (UpdatePlanState::AwaitingUpdate, RepoReply::Done(r)) => res == Step::<
                    UpdatePlanState,
                    (),
                >::Finished(r),
                _ => res matches Step::Finished(Err(DomainError::Unexpected(_))),
            },
    {
        match state {
            UpdatePlanState::AwaitingUser { user_id, plan, plan_expires_at } => match reply {
                RepoReply::User(Ok(Some(_))) => match UserPlan::from_str(plan.as_str()) {
                    Some(p) => Step::Perform(
                        UpdatePlanState::AwaitingUpdate,
                        RepoRequest::UpdateUserPlan { user_id, plan: p, plan_expires_at },
                    ),
                    None => Step::Finished(
                        Err(DomainError::Unexpected(concat_str("unknown plan: ", plan.as_str()))),
                    ),
                },
                RepoReply::User(Ok(None)) => Step::Finished(Err(DomainError::UserNotFound)),
                RepoReply::User(Err(e)) => Step::Finished(Err(e)),
                _ => Step::Finished(Err(mismatched_reply())),
            },
            UpdatePlanState::AwaitingUpdate => match reply {
                RepoReply::Done(r) => Step::Finished(r),
                _ => Step::Finished(Err(mismatched_reply())),
            },
        }
    }
}

} // verus!
