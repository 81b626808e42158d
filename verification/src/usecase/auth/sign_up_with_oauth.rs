//! Signing in with an OAuth identity: the identity's account is used, or made.
use vstd::prelude::*;
use crate::domain::types::UtcDateTime;
use crate::domain::error::DomainError;
use crate::domain::user::user_auth::AuthMethod;
use crate::domain::user::vo::email::normalize_email;
use crate::domain::user::vo::user_name::is_valid_user_name;
use crate::domain::user::vo::{Email, OAuthProvider, ProviderUserId, UserId, UserName};
use crate::domain::user::NewUser;
use crate::usecase::auth::session::{issue_session, session_issued, session_possible};
use crate::usecase::repo::{mismatched_reply, RepoReply, RepoRequest, Step};

verus! {

pub struct SignUpWithOAuthInput {
    pub provider: OAuthProvider,
    pub provider_user_id: String,
    pub name: String,
    pub email: Option<String>,
}

pub struct SignUpWithOAuthOutput {
    pub user_id: i64,
    pub access_token: String,
    pub refresh_token: String,
    pub is_new_user: bool,
}

/// Where an OAuth sign-in stands between two requests.
pub enum SignUpWithOAuthState {
    /// The account of the identity was asked for.
    AwaitingExisting {
        provider: OAuthProvider,
        provider_user_id: ProviderUserId,
        name: String,
        email: Option<String>,
    },
    /// A new account for the identity was handed over for storing.
    AwaitingCreated,
    /// The refresh token's hash was handed over for storing.
    AwaitingTokenStored { output: SignUpWithOAuthOutput },
}

/// `stored` is the normalized form of the address the provider reported.
pub open spec fn stored_oauth_email(reported: Option<String>, stored: Option<Email>) -> bool {
    match reported {
        Some(r) => stored matches Some(e) && e@ == normalize_email(r@),
        None => stored is None,
    }
}

/// The address the provider reported is acceptable (absent, or holding an
/// `@` once normalized).
pub open spec fn oauth_email_acceptable(reported: Option<String>) -> bool {
    match reported {
        Some(r) => normalize_email(r@).contains('@'),
        None => true,
    }
}

/// The stored address of a new OAuth account is the reported one,
/// normalized: a reported address `r` is stored as exactly
/// `normalize_email(r)`, and nothing is stored when nothing was reported.
pub proof fn lemma_stored_oauth_email(reported: Option<String>, stored: Option<Email>)
    ensures
        reported matches Some(r) ==> (stored_oauth_email(reported, stored) <==> (stored matches Some(
            e,
        ) && e@ == normalize_email(r@))),
        reported is None ==> (stored_oauth_email(reported, stored) <==> stored is None),
        reported is Some ==> !stored_oauth_email(reported, None),
{
}

pub struct SignUpWithOAuthUsecase {
    jwt_secret: String,
}

impl SignUpWithOAuthUsecase {
    pub closed spec fn secret(self) -> Seq<char> {
        self.jwt_secret@
    }

    pub fn new(jwt_secret: String) -> (res: Self)
        ensures
            res.secret() == jwt_secret@,
    {
        SignUpWithOAuthUsecase { jwt_secret }
    }

    /// Asks for the account of the identity.
    pub fn start(&self, input: SignUpWithOAuthInput) -> (res: Step<
        SignUpWithOAuthState,
        SignUpWithOAuthOutput,
    >)
        ensures
            res matches Step::Perform(
                SignUpWithOAuthState::AwaitingExisting { provider, provider_user_id, name, email },
                RepoRequest::FindUserByProvider { provider: asked_provider, provider_user_id: asked },
            ) && provider == input.provider && provider_user_id@ == input.provider_user_id@
                && name == input.name && email == input.email && asked_provider == provider && asked
                == provider_user_id,
    {
        let provider_user_id = ProviderUserId::new(input.provider_user_id);
        let asked = provider_user_id.clone();
        Step::Perform(
            SignUpWithOAuthState::AwaitingExisting {
                provider: input.provider,
                provider_user_id,
                name: input.name,
                email: input.email,
            },
            RepoRequest::FindUserByProvider { provider: input.provider, provider_user_id: asked },
        )
    }

    /// A known identity signs in to its account; an unknown one gets a new
    /// account after its name and address are validated. Either way a
    /// session is issued, and the result comes once its refresh token is
    /// stored.
    pub fn resume(&self, state: SignUpWithOAuthState, reply: RepoReply, now: UtcDateTime) -> (res: Step<
        SignUpWithOAuthState,
        SignUpWithOAuthOutput,
    >)
        ensures
            match (state, reply) {
                (SignUpWithOAuthState::AwaitingExisting { .. }, RepoReply::User(Err(e))) => res
                    == Step::<SignUpWithOAuthState, SignUpWithOAuthOutput>::Finished(Err(e)),
                (SignUpWithOAuthState::AwaitingExisting { .. }, RepoReply::User(Ok(Some(u)))) => {
                    if session_possible(now) {
                        (res matches Step::Perform(
                            SignUpWithOAuthState::AwaitingTokenStored { output },
                            req,
                        ) && output.user_id == u.id@ && !output.is_new_user && session_issued(
                            u.id,
                            self.secret(),
                            now,
                            output.access_token@,
                            output.refresh_token@,
                            req,
                        ))
                    } else {
                        res matches Step::Finished(Err(DomainError::Unexpected(_)))
                    }
                },
                (
                    SignUpWithOAuthState::AwaitingExisting { provider, provider_user_id, name, email },
                    RepoReply::User(Ok(None)),
                ) => {
                    &&& !is_valid_user_name(name@) ==> (res matches Step::Finished(
                        Err(DomainError::InvalidUserName(n)),
                    ) && n@ == name@)
                    &&& is_valid_user_name(name@) && !oauth_email_acceptable(email) ==> (
                    res matches Step::Finished(Err(DomainError::InvalidEmail(s)))
                        && s@ == normalize_email(email->0@))
                    &&& is_valid_user_name(name@) && oauth_email_acceptable(email) ==> (
                    res matches Step::Perform(
                        SignUpWithOAuthState::AwaitingCreated,
                        RepoRequest::CreateUser { new_user },
                    ) && new_user.name@ == name@ && (new_user.auth.method matches AuthMethod::OAuth {
                        email: stored,
                        provider: p,
                        provider_user_id: id,
                    } && stored_oauth_email(email, stored) && p == provider && id
                        == provider_user_id))
                    &&& match email {
                        Some(r) => is_valid_user_name(name@) && normalize_email(r@).contains('@')
                            ==> (res matches Step::Perform(
                            SignUpWithOAuthState::AwaitingCreated,
                            RepoRequest::CreateUser { new_user },
                        ) && (new_user.auth.method matches AuthMethod::OAuth { email: Some(e), .. }
                            && e@ == normalize_email(r@))),
                        None => is_valid_user_name(name@) ==> (res matches Step::Perform(
                            SignUpWithOAuthState::AwaitingCreated,
                            RepoRequest::CreateUser { new_user },
                        ) && (new_user.auth.method matches AuthMethod::OAuth { email: None, .. })),
                    }
                },
                (SignUpWithOAuthState::AwaitingCreated, RepoReply::CreatedUser(Err(e))) => res
                    == Step::<SignUpWithOAuthState, SignUpWithOAuthOutput>::Finished(Err(e)),
                (SignUpWithOAuthState::AwaitingCreated, RepoReply::CreatedUser(Ok(u))) => {
                    if session_possible(now) {
                        (res matches Step::Perform(
                            SignUpWithOAuthState::AwaitingTokenStored { output },
                            req,
                        ) && output.user_id == u.id@ && output.is_new_user && session_issued(
                            u.id,
                            self.secret(),
                            now,
                            output.access_token@,
                            output.refresh_token@,
                            req,
                        ))
                    } else {
                        res matches Step::Finished(Err(DomainError::Unexpected(_)))
                    }
                },
                (
                    SignUpWithOAuthState::AwaitingTokenStored { output },
                    RepoReply::CreatedRefreshToken(Err(e)),
                ) => res == Step::<SignUpWithOAuthState, SignUpWithOAuthOutput>::Finished(Err(e)),
                (
                    SignUpWithOAuthState::AwaitingTokenStored { output },
                    RepoReply::CreatedRefreshToken(Ok(_)),
                ) => res == Step::<SignUpWithOAuthState, SignUpWithOAuthOutput>::Finished(
                    Ok(output),
                ),
                _ => res matches Step::Finished(Err(DomainError::Unexpected(_))),
            },
    {
        match state {
            SignUpWithOAuthState::AwaitingExisting { provider, provider_user_id, name, email } =>
                match reply {
                RepoReply::User(Ok(Some(existing))) => self.session_for(existing.id, false, now),
                RepoReply::User(Ok(None)) => {
                    let name = match UserName::new(name) {
                        Ok(n) => n,
                        Err(e) => {
                            return Step::Finished(Err(e));
                        },
                    };
                    let email = match email {
                        Some(raw) => match Email::new(raw) {
                            Ok(e) => Some(e),
                            Err(e) => {
                                return Step::Finished(Err(e));
                            },
                        },
                        None => None,
                    };
                    let new_user = NewUser::new_oauth(name, email, provider, provider_user_id);
                    Step::Perform(SignUpWithOAuthState::AwaitingCreated, RepoRequest::CreateUser { new_user })
                },
                RepoReply::User(Err(e)) => Step::Finished(Err(e)),
                _ => Step::Finished(Err(mismatched_reply())),
            },
            SignUpWithOAuthState::AwaitingCreated => match reply {
                RepoReply::CreatedUser(Ok(created)) => self.session_for(created.id, true, now),
                RepoReply::CreatedUser(Err(e)) => Step::Finished(Err(e)),
                _ => Step::Finished(Err(mismatched_reply())),
            },
            SignUpWithOAuthState::AwaitingTokenStored { output } => match reply {
                RepoReply::CreatedRefreshToken(Ok(_)) => Step::Finished(Ok(output)),
                RepoReply::CreatedRefreshToken(Err(e)) => Step::Finished(Err(e)),
                _ => Step::Finished(Err(mismatched_reply())),
            },
        }
    }

    fn session_for(&self, user_id: UserId, is_new_user: bool, now: UtcDateTime) -> (res: Step<
        SignUpWithOAuthState,
        SignUpWithOAuthOutput,
    >)
        ensures
            ({
                if session_possible(now) {
                    (res matches Step::Perform(
                        SignUpWithOAuthState::AwaitingTokenStored { output },
                        req,
                    ) && output.user_id == user_id@ && output.is_new_user == is_new_user
                        && session_issued(
                        user_id,
                        self.secret(),
                        now,
                        output.access_token@,
                        output.refresh_token@,
                        req,
                    ))
                } else {
                    res matches Step::Finished(Err(DomainError::Unexpected(_)))
                }
            }),
    {
        match issue_session(user_id, self.jwt_secret.as_str(), now) {
            Ok((access_token, refresh_token, req)) => Step::Perform(
                SignUpWithOAuthState::AwaitingTokenStored {
                    output: SignUpWithOAuthOutput {
                        user_id: user_id.value(),
                        access_token,
                        refresh_token,
                        is_new_user,
                    },
                },
                req,
            ),
            Err(e) => Step::Finished(Err(e)),
        }
    }
}

} // verus!
