use rust_api::domain::error::DomainError;
use rust_api::domain::refresh_token::vo::{RefreshTokenId, TokenHash};
use rust_api::domain::refresh_token::RefreshToken;
use rust_api::domain::types::{UtcDateTime, MICROS_PER_DAY};
use rust_api::domain::user::user_auth::{AuthMethod, UserAuth};
use rust_api::domain::user::vo::{DeviceId, Email, OAuthProvider, ProviderUserId, UserId, UserName};
use rust_api::domain::user::{NewUser, User};
use rust_api::usecase::auth::login_with_email::{LoginWithEmailInput, LoginWithEmailUsecase};
use rust_api::usecase::auth::logout::{LogoutInput, LogoutUsecase};
use rust_api::usecase::auth::password_crypto::{hash_password, verify_password};
use rust_api::usecase::auth::refresh_token::{RefreshTokenInput, RefreshTokenUsecase};
use rust_api::usecase::auth::sign_up_with_email::{SignUpWithEmailInput, SignUpWithEmailUsecase};
use rust_api::usecase::auth::sign_up_with_mobile_device::{
    SignUpWithMobileDeviceInput, SignUpWithMobileDeviceUsecase,
};
use rust_api::usecase::auth::sign_up_with_oauth::{SignUpWithOAuthInput, SignUpWithOAuthUsecase};
use rust_api::usecase::auth::token::hash_refresh_token;
use rust_api::usecase::repo::{RepoReply, RepoRequest, Step};

/// The current instant, from the system clock.
fn utc_now() -> UtcDateTime {
    rust_api::domain::types::utc_now().unwrap()
}

fn perform<S, O>(step: Step<S, O>) -> (S, RepoRequest) {
    match step {
        Step::Perform(s, r) => (s, r),
        Step::Finished(_) => panic!("the use case finished early"),
    }
}

fn finished<S, O>(step: Step<S, O>) -> Result<O, DomainError> {
    match step {
        Step::Finished(r) => r,
        Step::Perform(_, r) => panic!("the use case asked for {:?}", r),
    }
}

fn make_user(raw_password: &str) -> User {
    let user_id = UserId::new(1);
    let name = UserName::new("testuser".to_string()).unwrap();
    let email = Email::new("test@example.com".to_string()).unwrap();
    let password_hash = hash_password(raw_password).unwrap();
    let auth = UserAuth::new_password(user_id, email, password_hash).unwrap();
    User::new(user_id, name, auth).unwrap()
}

fn to_user(new_user: NewUser, id: i64) -> User {
    let user_id = UserId::new(id);
    let auth = UserAuth {
        user_id,
        auth_method: new_user.auth.method,
        created_at: utc_now(),
        updated_at: utc_now(),
    };
    User::new(user_id, new_user.name, auth).unwrap()
}

fn make_refresh_token() -> RefreshToken {
    let now = utc_now();
    RefreshToken {
        id: RefreshTokenId::new(1),
        user_id: UserId::new(1),
        token_hash: TokenHash::from_hash("hash".to_string()),
        expires_at: UtcDateTime::from_micros(now.micros() + 30 * MICROS_PER_DAY),
        created_at: now,
        revoked_at: None,
    }
}

fn login(email: &str, password: &str, found: Option<User>) -> Result<i64, DomainError> {
    let uc = LoginWithEmailUsecase::new("test_secret".to_string());
    let (state, req) = perform(uc.start(LoginWithEmailInput {
        email: email.to_string(),
        password: password.to_string(),
    }));
    assert!(matches!(req, RepoRequest::FindUserByEmail { .. }));
    let step = uc.resume(state, RepoReply::User(Ok(found)), utc_now());
    let (state, req) = match step {
        Step::Perform(s, r) => (s, r),
        Step::Finished(r) => return r.map(|o| o.user_id),
    };
    assert!(matches!(req, RepoRequest::CreateRefreshToken { .. }));
    finished(uc.resume(state, RepoReply::CreatedRefreshToken(Ok(make_refresh_token())), utc_now()))
        .map(|o| o.user_id)
}

#[test]
fn login_with_email_success() {
    let result = login("test@example.com", "password123", Some(make_user("password123")));
    assert!(result.is_ok());
}

#[test]
fn user_not_found() {
    let result = login("not_exist@example.com", "invalid_password", None);
    assert!(matches!(result, Err(DomainError::UserNotFound)));
}

#[test]
fn login_with_email_incorrect_password() {
    let result = login("test@example.com", "wrong_password", Some(make_user("password123")));
    assert!(matches!(result, Err(DomainError::IncorrectPassword)));
}

#[test]
fn login_hands_out_the_token_whose_hash_is_stored() {
    let uc = LoginWithEmailUsecase::new("test_secret".to_string());
    let (state, _) = perform(uc.start(LoginWithEmailInput {
        email: "test@example.com".to_string(),
        password: "password123".to_string(),
    }));
    let (state, req) = perform(uc.resume(state, RepoReply::User(Ok(Some(make_user("password123")))), utc_now()));
    let output = match &state {
        rust_api::usecase::auth::login_with_email::LoginWithEmailState::AwaitingTokenStored {
            output,
        } => (output.refresh_token.clone(), output.access_token.clone()),
        _ => panic!("unexpected state"),
    };
    match req {
        RepoRequest::CreateRefreshToken { user_id, token_hash, .. } => {
            assert_eq!(user_id.value(), 1);
            assert_eq!(token_hash.value(), hash_refresh_token(&output.0).value());
        }
        other => panic!("unexpected {:?}", other),
    }
    assert_eq!(output.0.len(), 64);
    assert_eq!(output.1.split('.').count(), 3);
}

#[test]
fn login_refuses_oauth_accounts() {
    let user_id = UserId::new(3);
    let auth = UserAuth::new_oauth(
        user_id,
        None,
        OAuthProvider::Apple,
        ProviderUserId::new("apple_1".to_string()),
    ).unwrap();
    let user = User::new(user_id, UserName::new("x".to_string()).unwrap(), auth).unwrap();
    let result = login("test@example.com", "pw", Some(user));
    assert!(matches!(result, Err(DomainError::NotPasswordAuthUser)));
}

#[test]
fn login_rejects_invalid_email_before_asking() {
    let uc = LoginWithEmailUsecase::new("s".to_string());
    let r = finished(uc.start(LoginWithEmailInput {
        email: "nobody".to_string(),
        password: "p".to_string(),
    }));
    assert!(matches!(r, Err(DomainError::InvalidEmail(_))));
}

fn sign_up(name: &str, email: &str, existing: Option<User>) -> Result<i64, DomainError> {
    let uc = SignUpWithEmailUsecase::new("test_secret".to_string());
    let step = uc.start(SignUpWithEmailInput {
        name: name.to_string(),
        email: email.to_string(),
        password: "password123".to_string(),
    });
    let (state, req) = match step {
        Step::Perform(s, r) => (s, r),
        Step::Finished(r) => return r.map(|o| o.user_id),
    };
    assert!(matches!(req, RepoRequest::FindUserByEmail { .. }));
    let step = uc.resume(state, RepoReply::User(Ok(existing)), utc_now());
    let (state, req) = match step {
        Step::Perform(s, r) => (s, r),
        Step::Finished(r) => return r.map(|o| o.user_id),
    };
    let new_user = match req {
        RepoRequest::CreateUser { new_user } => new_user,
        other => panic!("unexpected {:?}", other),
    };
    let (state, req) = perform(uc.resume(state, RepoReply::CreatedUser(Ok(to_user(new_user, 1))), utc_now()));
    assert!(matches!(req, RepoRequest::CreateRefreshToken { .. }));
    finished(uc.resume(state, RepoReply::CreatedRefreshToken(Ok(make_refresh_token())), utc_now()))
        .map(|o| o.user_id)
}

#[test]
fn sign_up_with_email_success() {
    let result = sign_up("testname", "test@example.com", None);
    assert!(result.is_ok());
}

#[test]
fn email_already_exists() {
    let result = sign_up("testname", "test@example.com", Some(make_user("hash")));
    assert!(matches!(result, Err(DomainError::EmailAlreadyExists)));
}

#[test]
fn invalid_email() {
    let result = sign_up("testuser", "invalid_email", None);
    assert!(matches!(result, Err(DomainError::InvalidEmail(_))));
}

#[test]
fn sign_up_with_email_invalid_name() {
    let result = sign_up("", "test@example.com", None);
    assert!(matches!(result, Err(DomainError::InvalidUserName(_))));
}

#[test]
fn sign_up_stores_a_hash_that_accepts_the_password() {
    let uc = SignUpWithEmailUsecase::new("s".to_string());
    let (state, _) = perform(uc.start(SignUpWithEmailInput {
        name: "n".to_string(),
        email: "A@B.C".to_string(),
        password: "secret pw".to_string(),
    }));
    let (_, req) = perform(uc.resume(state, RepoReply::User(Ok(None)), utc_now()));
    match req {
        RepoRequest::CreateUser { new_user } => match new_user.auth.method {
            AuthMethod::Password { email, password_hash } => {
                assert_eq!(email.value(), "a@b.c");
                assert!(verify_password("secret pw", password_hash.value()).is_ok());
                assert!(matches!(
                    verify_password("other", password_hash.value()),
                    Err(DomainError::IncorrectPassword)
                ));
            }
            other => panic!("unexpected {:?}", other),
        },
        other => panic!("unexpected {:?}", other),
    }
}

fn make_device_user() -> User {
    let name = UserName::new("user_test1234".to_string()).unwrap();
    let device_id = DeviceId::new("test-device-id-12345678".to_string());
    to_user(NewUser::new_mobile_device(name, device_id), 1)
}

fn device_sign_in(found: Option<User>, name: Option<String>) -> (Result<(i64, bool), DomainError>, Option<NewUser>) {
    let uc = SignUpWithMobileDeviceUsecase::new("test_secret".to_string());
    let (state, req) = perform(uc.start(SignUpWithMobileDeviceInput {
        device_id: "test-device-id-123".to_string(),
        name,
    }));
    assert!(matches!(req, RepoRequest::FindUserByDeviceId { .. }));
    let mut created = None;
    let (state, req) = match uc.resume(state, RepoReply::User(Ok(found)), utc_now()) {
        Step::Perform(s, RepoRequest::CreateUser { new_user }) => {
            let reply = RepoReply::CreatedUser(Ok(to_user(new_user.clone(), 2)));
            created = Some(new_user);
            perform(uc.resume(s, reply, utc_now()))
        }
        Step::Perform(s, r) => (s, r),
        Step::Finished(r) => return (r.map(|o| (o.user_id, o.is_new_user)), created),
    };
    assert!(matches!(req, RepoRequest::CreateRefreshToken { .. }));
    let r = finished(uc.resume(state, RepoReply::CreatedRefreshToken(Ok(make_refresh_token())), utc_now()));
    (r.map(|o| (o.user_id, o.is_new_user)), created)
}

#[test]
fn sign_up_with_mobile_device_new_user_is_created() {
    let (result, created) = device_sign_in(None, None);
    let (user_id, is_new_user) = result.unwrap();
    assert_eq!(user_id, 2);
    assert!(is_new_user);
    assert_eq!(created.unwrap().name.value(), "user_test-dev");
}

#[test]
fn sign_up_with_mobile_device_existing_user_logs_in() {
    let (result, _) = device_sign_in(Some(make_device_user()), None);
    let (user_id, is_new_user) = result.unwrap();
    assert_eq!(user_id, 1);
    assert!(!is_new_user);
}

#[test]
fn mobile_device_given_name_is_validated() {
    let (result, _) = device_sign_in(None, Some(String::new()));
    assert!(matches!(result, Err(DomainError::InvalidUserName(_))));
}

fn make_oauth_user() -> User {
    let name = UserName::new("testuser".to_string()).unwrap();
    let email = Email::new("test@example.com".to_string()).unwrap();
    let provider_user_id = ProviderUserId::new("google_123".to_string());
    to_user(NewUser::new_oauth(name, Some(email), OAuthProvider::Google, provider_user_id), 1)
}

fn oauth_sign_in(provider_user_id: String, name: &str, found: Option<User>) -> Result<(i64, bool), DomainError> {
    let uc = SignUpWithOAuthUsecase::new("test_secret".to_string());
    let (state, req) = perform(uc.start(SignUpWithOAuthInput {
        provider: OAuthProvider::Google,
        provider_user_id,
        name: name.to_string(),
        email: Some("test@example.com".to_string()),
    }));
    assert!(matches!(req, RepoRequest::FindUserByProvider { .. }));
    let (state, req) = match uc.resume(state, RepoReply::User(Ok(found)), utc_now()) {
        Step::Perform(s, RepoRequest::CreateUser { new_user }) => {
            perform(uc.resume(s, RepoReply::CreatedUser(Ok(to_user(new_user, 2))), utc_now()))
        }
        Step::Perform(s, r) => (s, r),
        Step::Finished(r) => return r.map(|o| (o.user_id, o.is_new_user)),
    };
    assert!(matches!(req, RepoRequest::CreateRefreshToken { .. }));
    finished(uc.resume(state, RepoReply::CreatedRefreshToken(Ok(make_refresh_token())), utc_now()))
        .map(|o| (o.user_id, o.is_new_user))
}

#[test]
fn sign_up_with_oauth_new_user_is_created() {
    let (user_id, is_new_user) = oauth_sign_in("google_456".to_string(), "testuser", None).unwrap();
    assert_eq!(user_id, 2);
    assert!(is_new_user);
}

#[test]
fn sign_up_with_oauth_existing_user_logs_in() {
    let (user_id, is_new_user) =
        oauth_sign_in("google_123".to_lowercase(), "testuser", Some(make_oauth_user())).unwrap();
    assert_eq!(user_id, 1);
    assert!(!is_new_user);
}

#[test]
fn sign_up_with_oauth_invalid_name() {
    let result = oauth_sign_in("google_456".to_string(), "", None);
    assert!(matches!(result, Err(DomainError::InvalidUserName(_))));
}

#[test]
fn refresh_rotates_the_token() {
    let uc = RefreshTokenUsecase::new("s".to_string());
    let (state, req) = perform(uc.start(RefreshTokenInput { refresh_token: "abc".to_string() }));
    match &req {
        RepoRequest::FindRefreshTokenByHash { token_hash } => {
            assert_eq!(token_hash.value(), hash_refresh_token("abc").value())
        }
        other => panic!("unexpected {:?}", other),
    }
    let mut stored = make_refresh_token();
    stored.id = RefreshTokenId::new(7);
    let (state, req) = perform(uc.resume(state, RepoReply::RefreshToken(Ok(Some(stored))), utc_now()));
    assert!(matches!(req, RepoRequest::FindUserById { .. }));
    let (state, req) = perform(uc.resume(state, RepoReply::User(Ok(Some(make_user("pw")))), utc_now()));
    match req {
        RepoRequest::RevokeRefreshToken { token_id } => assert_eq!(token_id.value(), 7),
        other => panic!("unexpected {:?}", other),
    }
    let (state, req) = perform(uc.resume(state, RepoReply::Done(Ok(())), utc_now()));
    assert!(matches!(req, RepoRequest::CreateRefreshToken { .. }));
    let out = finished(uc.resume(state, RepoReply::CreatedRefreshToken(Ok(make_refresh_token())), utc_now())).unwrap();
    assert_eq!(out.user_id, 1);
    assert_ne!(out.refresh_token, "abc");
}

#[test]
fn refresh_refuses_revoked_and_expired_tokens() {
    let uc = RefreshTokenUsecase::new("s".to_string());
    let mut revoked = make_refresh_token();
    revoked.revoked_at = Some(utc_now());
    let (state, _) = perform(uc.start(RefreshTokenInput { refresh_token: "abc".to_string() }));
    let r = finished(uc.resume(state, RepoReply::RefreshToken(Ok(Some(revoked))), utc_now()));
    assert!(matches!(r, Err(DomainError::Unauthorized)));

    let mut expired = make_refresh_token();
    expired.expires_at = UtcDateTime::from_micros(utc_now().micros() - 1);
    let (state, _) = perform(uc.start(RefreshTokenInput { refresh_token: "abc".to_string() }));
    let r = finished(uc.resume(state, RepoReply::RefreshToken(Ok(Some(expired))), utc_now()));
    assert!(matches!(r, Err(DomainError::Unauthorized)));

    let (state, _) = perform(uc.start(RefreshTokenInput { refresh_token: "abc".to_string() }));
    let r = finished(uc.resume(state, RepoReply::RefreshToken(Ok(None)), utc_now()));
    assert!(matches!(r, Err(DomainError::Unauthorized)));
}

#[test]
fn logout_revokes_a_valid_token() {
    let uc = LogoutUsecase::new();
    let (state, _) = perform(uc.start(LogoutInput { refresh_token: "abc".to_string() }));
    let (state, req) = perform(uc.resume(state, RepoReply::RefreshToken(Ok(Some(make_refresh_token()))), utc_now()));
    assert!(matches!(req, RepoRequest::RevokeRefreshToken { .. }));
    assert!(finished(uc.resume(state, RepoReply::Done(Ok(())), utc_now())).is_ok());
}

#[test]
fn logout_of_unknown_token_is_unauthorized() {
    let uc = LogoutUsecase::new();
    let (state, _) = perform(uc.start(LogoutInput { refresh_token: "abc".to_string() }));
    let r = finished(uc.resume(state, RepoReply::RefreshToken(Ok(None)), utc_now()));
    assert!(matches!(r, Err(DomainError::Unauthorized)));
}

#[test]
fn mismatched_reply_is_unexpected() {
    let uc = LogoutUsecase::new();
    let (state, _) = perform(uc.start(LogoutInput { refresh_token: "abc".to_string() }));
    let r = finished(uc.resume(state, RepoReply::Done(Ok(())), utc_now()));
    assert!(matches!(r, Err(DomainError::Unexpected(_))));
}

#[test]
fn repository_errors_pass_through() {
    let uc = LoginWithEmailUsecase::new("s".to_string());
    let (state, _) = perform(uc.start(LoginWithEmailInput {
        email: "a@b".to_string(),
        password: "p".to_string(),
    }));
    let r = finished(uc.resume(state, RepoReply::User(Err(DomainError::Unexpected("db".to_string()))), utc_now()));
    match r {
        Err(DomainError::Unexpected(s)) => assert_eq!(s, "db"),
        _ => panic!("unexpected result"),
    }
}

#[test]
fn refresh_judges_expiry_at_the_step_time() {
    let uc = RefreshTokenUsecase::new("s".to_string());
    let mut stored = make_refresh_token();
    stored.expires_at = UtcDateTime::from_micros(1_000_000_000);
    let (state, _) = perform(uc.start(RefreshTokenInput { refresh_token: "abc".to_string() }));
    let (_, req) = perform(uc.resume(
        state,
        RepoReply::RefreshToken(Ok(Some(stored.clone()))),
        UtcDateTime::from_micros(999_999_999),
    ));
    assert!(matches!(req, RepoRequest::FindUserById { .. }));
    let (state, _) = perform(uc.start(RefreshTokenInput { refresh_token: "abc".to_string() }));
    let r = finished(uc.resume(
        state,
        RepoReply::RefreshToken(Ok(Some(stored))),
        UtcDateTime::from_micros(1_000_000_000),
    ));
    assert!(matches!(r, Err(DomainError::Unauthorized)));
}

#[test]
fn logout_refuses_a_token_expired_at_the_step_time() {
    let uc = LogoutUsecase::new();
    let mut stored = make_refresh_token();
    stored.expires_at = UtcDateTime::from_micros(1_000_000_000);
    let (state, _) = perform(uc.start(LogoutInput { refresh_token: "abc".to_string() }));
    let r = finished(uc.resume(
        state,
        RepoReply::RefreshToken(Ok(Some(stored))),
        UtcDateTime::from_micros(2_000_000_000),
    ));
    assert!(matches!(r, Err(DomainError::Unauthorized)));
}

#[test]
fn login_before_the_epoch_issues_no_session() {
    let uc = LoginWithEmailUsecase::new("s".to_string());
    let (state, _) = perform(uc.start(LoginWithEmailInput {
        email: "test@example.com".to_string(),
        password: "password123".to_string(),
    }));
    let r = finished(uc.resume(
        state,
        RepoReply::User(Ok(Some(make_user("password123")))),
        UtcDateTime::from_micros(-1),
    ));
    assert!(matches!(r, Err(DomainError::Unexpected(_))));
}
