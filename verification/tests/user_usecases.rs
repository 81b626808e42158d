use rust_api::domain::error::DomainError;
use rust_api::domain::types::{utc_now, UtcDateTime};
use rust_api::domain::user::user_auth::{AuthMethod, UserAuth};
use rust_api::domain::user::vo::{
    DeviceId, Email, OAuthProvider, ProviderUserId, UserId, UserName, UserPlan,
};
use rust_api::domain::user::User;
use rust_api::usecase::auth::password_crypto::{hash_password, verify_password};
use rust_api::usecase::repo::{RepoReply, RepoRequest, Step};
use rust_api::usecase::user::get_me::{GetMeInput, GetMeUsecase};
use rust_api::usecase::user::update_name::{UpdateNameInput, UpdateNameUsecase};
use rust_api::usecase::user::update_password::{UpdatePasswordInput, UpdatePasswordUsecase};
use rust_api::usecase::user::update_plan::{UpdatePlanInput, UpdatePlanUsecase};

fn perform<S, O>(step: Step<S, O>) -> (S, RepoRequest) {
    match step {
        Step::Perform(s, r) => (s, r),
        Step::Finished(_) => panic!("the use case finished early"),
    }
}

fn finished<S, O>(step: Step<S, O>) -> Result<O, DomainError> {
    match step {
        Step::Finished(r) => r,
        Step::Perform(_, r) => panic!("the use case asked for {:?}", r),
    }
}

fn make_user(raw_password: &str) -> User {
    let user_id = UserId::new(1);
    let name = UserName::new("testname".to_string()).unwrap();
    let email = Email::new("test@example.com".to_string()).unwrap();
    let password_hash = hash_password(raw_password).unwrap();
    let auth = UserAuth::new_password(user_id, email, password_hash).unwrap();
    User::new(user_id, name, auth).unwrap()
}

fn make_oauth_user() -> User {
    let user_id = UserId::new(1);
    let email = Email::new("test@example.com".to_string()).unwrap();
    let name = UserName::new("oauth_user".to_string()).unwrap();
    let provider_user_id = ProviderUserId::new("google_user".to_string());
    let auth = UserAuth::new_oauth(user_id, Some(email), OAuthProvider::Google, provider_user_id).unwrap();
    User::new(user_id, name, auth).unwrap()
}

fn update_password(user: User, current: &str, new: &str) -> Result<Option<UserAuth>, DomainError> {
    let uc = UpdatePasswordUsecase::new();
    let (state, req) = perform(uc.start(UpdatePasswordInput {
        user_id: 1,
        current_password: current.to_string(),
        new_password: new.to_string(),
    }));
    assert!(matches!(req, RepoRequest::FindUserById { .. }));
    match uc.resume(state, RepoReply::User(Ok(Some(user))), utc_now().unwrap()) {
        Step::Perform(state, RepoRequest::SaveUserAuth { auth }) => {
            finished(uc.resume(state, RepoReply::Done(Ok(())), utc_now().unwrap())).map(|_| Some(auth))
        }
        Step::Perform(_, other) => panic!("unexpected {:?}", other),
        Step::Finished(r) => r.map(|_| None),
    }
}

#[test]
fn update_password_success() {
    let result = update_password(make_user("password123"), "password123", "password456");
    assert!(result.is_ok());
}

#[test]
fn update_password_incorrect_password() {
    let result = update_password(make_user("password123"), "wrong_pssword", "new_password");
    assert!(matches!(result, Err(DomainError::IncorrectPassword)));
}

#[test]
fn oauth_user_cannot_update_password() {
    let result = update_password(make_oauth_user(), "pass", "new_pass");
    assert!(matches!(result, Err(DomainError::NotPasswordAuthUser)));
}

#[test]
fn saved_credentials_accept_the_new_password_only() {
    let auth = update_password(make_user("old pw"), "old pw", "new pw").unwrap().unwrap();
    assert_eq!(auth.user_id.value(), 1);
    match auth.auth_method {
        AuthMethod::Password { email, password_hash } => {
            assert_eq!(email.value(), "test@example.com");
            assert!(verify_password("new pw", password_hash.value()).is_ok());
            assert!(matches!(
                verify_password("old pw", password_hash.value()),
                Err(DomainError::IncorrectPassword)
            ));
        }
        other => panic!("unexpected {:?}", other),
    }
}

#[test]
fn change_password_refuses_device_credentials() {
    let mut auth = UserAuth::new_mobile_device(UserId::new(4), DeviceId::new("dev".to_string())).unwrap();
    let r = auth.change_password(hash_password("x").unwrap());
    assert!(matches!(r, Err(DomainError::NotPasswordAuthUser)));
    assert!(matches!(auth.auth_method, AuthMethod::MobileDevice { .. }));
}

#[test]
fn get_me_describes_the_user() {
    let uc = GetMeUsecase::new();
    let (state, req) = perform(uc.start(GetMeInput { user_id: 1 }));
    match req {
        RepoRequest::FindUserById { user_id } => assert_eq!(user_id.value(), 1),
        other => panic!("unexpected {:?}", other),
    }
    let mut user = make_user("pw");
    user.plan = UserPlan::Premium;
    user.plan_expires_at = Some(UtcDateTime::from_micros(42));
    let created_at = user.created_at;
    let out = finished(uc.resume(state, RepoReply::User(Ok(Some(user))))).unwrap();
    assert_eq!(out.user_id, 1);
    assert_eq!(out.name, "testname");
    assert_eq!(out.email.as_deref(), Some("test@example.com"));
    assert_eq!(out.auth_kind, "password_hash");
    assert_eq!(out.plan, "premium");
    assert_eq!(out.plan_expires_at, Some(UtcDateTime::from_micros(42)));
    assert_eq!(out.created_at, created_at);
}

#[test]
fn get_me_of_device_user_has_no_email() {
    let uc = GetMeUsecase::new();
    let (state, _) = perform(uc.start(GetMeInput { user_id: 5 }));
    let auth = UserAuth::new_mobile_device(UserId::new(5), DeviceId::new("d".to_string())).unwrap();
    let user = User::new(UserId::new(5), UserName::new("d".to_string()).unwrap(), auth).unwrap();
    let out = finished(uc.resume(state, RepoReply::User(Ok(Some(user))))).unwrap();
    assert_eq!(out.email, None);
    assert_eq!(out.auth_kind, "mobile_device");
    assert_eq!(out.plan, "free");
}

#[test]
fn get_me_of_missing_user() {
    let uc = GetMeUsecase::new();
    let (state, _) = perform(uc.start(GetMeInput { user_id: 9 }));
    assert!(matches!(finished(uc.resume(state, RepoReply::User(Ok(None)))), Err(DomainError::UserNotFound)));
}

#[test]
fn update_name_stores_a_valid_name() {
    let uc = UpdateNameUsecase::new();
    let (state, _) = perform(uc.start(UpdateNameInput { user_id: 1, new_name: "renamed".to_string() }));
    let (state, req) = perform(uc.resume(state, RepoReply::User(Ok(Some(make_user("pw"))))));
    match req {
        RepoRequest::UpdateUserName { user_id, name } => {
            assert_eq!(user_id.value(), 1);
            assert_eq!(name.value(), "renamed");
        }
        other => panic!("unexpected {:?}", other),
    }
    assert!(finished(uc.resume(state, RepoReply::Done(Ok(())))).is_ok());
}

#[test]
fn update_name_checks_the_user_before_the_name() {
    let uc = UpdateNameUsecase::new();
    let (state, _) = perform(uc.start(UpdateNameInput { user_id: 1, new_name: String::new() }));
    assert!(matches!(finished(uc.resume(state, RepoReply::User(Ok(None)))), Err(DomainError::UserNotFound)));
    let (state, _) = perform(uc.start(UpdateNameInput { user_id: 1, new_name: String::new() }));
    let r = finished(uc.resume(state, RepoReply::User(Ok(Some(make_user("pw"))))));
    assert!(matches!(r, Err(DomainError::InvalidUserName(_))));
}

#[test]
fn update_plan_reads_the_plan_name() {
    let uc = UpdatePlanUsecase::new();
    let (state, _) = perform(uc.start(UpdatePlanInput {
        user_id: 3,
        plan: "premium".to_string(),
        plan_expires_at: Some(UtcDateTime::from_micros(7)),
    }));
    let (state, req) = perform(uc.resume(state, RepoReply::User(Ok(Some(make_user("pw"))))));
    match req {
        RepoRequest::UpdateUserPlan { user_id, plan, plan_expires_at } => {
            assert_eq!(user_id.value(), 3);
            assert_eq!(plan, UserPlan::Premium);
            assert_eq!(plan_expires_at, Some(UtcDateTime::from_micros(7)));
        }
        other => panic!("unexpected {:?}", other),
    }
    assert!(finished(uc.resume(state, RepoReply::Done(Ok(())))).is_ok());

    let (state, _) = perform(uc.start(UpdatePlanInput {
        user_id: 3,
        plan: "gold".to_string(),
        plan_expires_at: None,
    }));
    match finished(uc.resume(state, RepoReply::User(Ok(Some(make_user("pw")))))) {
        Err(DomainError::Unexpected(s)) => assert_eq!(s, "unknown plan: gold"),
        _ => panic!("unexpected result"),
    }
}
