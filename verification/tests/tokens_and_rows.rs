use rust_api::domain::error::DomainError;
use rust_api::domain::refresh_token::vo::{RefreshTokenId, TokenHash};
use rust_api::domain::refresh_token::RefreshToken;
use rust_api::domain::subscription::vo::{SubscriptionProvider, SubscriptionStatus};
use rust_api::domain::types::UtcDateTime;
use rust_api::domain::user::user_auth::{AuthMethod, UserAuth};
use rust_api::domain::user::vo::{OAuthProvider, UserId, UserPlan};
use rust_api::infra::oauth::google::{GoogleOAuthClient, GoogleUserInfo};
use rust_api::infra::subscription::row::{to_domain, SubscriptionRow};
use rust_api::infra::user::user_row::{password_hash_to_save, AuthRow, UserRow};
use rust_api::middleware::auth::{authenticate, bearer_token, AuthUser};
use rust_api::presentation::error::{AppError, ErrorBody};
use rust_api::presentation::handler::auth::web_refresh_input;
use rust_api::presentation::handler::oauth::google_sign_up_input;
use rust_api::usecase::auth::password_crypto::{hash_password, verify_password};
use rust_api::usecase::auth::session::issue_session;
use rust_api::usecase::repo::RepoRequest;
use rust_api::usecase::auth::token::{
    generate_refresh_token, hash_refresh_token, issue_token, issue_token_at,
};

fn t(m: i64) -> UtcDateTime {
    UtcDateTime::from_micros(m)
}

#[test]
fn refresh_tokens_are_64_hex_digits_and_differ() {
    let a = generate_refresh_token();
    let b = generate_refresh_token();
    assert_eq!(a.len(), 64);
    assert!(a.chars().all(|c| c.is_ascii_digit() || ('a'..='f').contains(&c)));
    assert_ne!(a, b);
}

#[test]
fn token_hash_is_sha256_hex() {
    let h = hash_refresh_token("abc");
    assert_eq!(
        h.value(),
        "ba7816bf8f01cfea414140de5dae2223b00361a396177a9cb410ff61f20015ad"
    );
    assert_eq!(hash_refresh_token("abc"), h);
}

#[test]
fn access_token_carries_subject_and_expiry() {
    let token = issue_token_at(42, 1_000, "secret").unwrap();
    let key = jsonwebtoken::DecodingKey::from_secret(b"secret");
    let mut validation = jsonwebtoken::Validation::default();
    validation.validate_exp = false;
    let data = jsonwebtoken::decode::<std::collections::BTreeMap<String, i64>>(&token, &key, &validation)
        .unwrap();
    assert_eq!(data.claims["sub"], 42);
    assert_eq!(data.claims["exp"], 1_900);
    assert!(issue_token_at(1, u64::MAX, "secret").is_err());
}

#[test]
fn fresh_access_token_validates() {
    let token = issue_token(7, "k").unwrap();
    let key = jsonwebtoken::DecodingKey::from_secret(b"k");
    let data = jsonwebtoken::decode::<std::collections::BTreeMap<String, i64>>(
        &token,
        &key,
        &jsonwebtoken::Validation::default(),
    )
    .unwrap();
    assert_eq!(data.claims["sub"], 7);
}

#[test]
fn unreadable_hash_is_unexpected() {
    assert!(matches!(verify_password("pw", "not a phc string"), Err(DomainError::Unexpected(_))));
    let h = hash_password("pw").unwrap();
    assert!(h.value().starts_with("$argon2id$"));
}

#[test]
fn refresh_token_validity() {
    let mut token = RefreshToken {
        id: RefreshTokenId::new(1),
        user_id: UserId::new(1),
        token_hash: TokenHash::from_hash("h".to_string()),
        expires_at: t(100),
        created_at: t(0),
        revoked_at: None,
    };
    assert!(token.is_valid_at(t(99)));
    assert!(!token.is_valid_at(t(100)));
    token.revoked_at = Some(t(50));
    assert!(!token.is_valid_at(t(10)));
    assert!(!token.is_valid().unwrap());
}

fn sub_row(provider: &str, status: &str, plan: &str) -> SubscriptionRow {
    SubscriptionRow {
        id: 1,
        user_id: 2,
        provider: provider.to_string(),
        provider_subscription_id: "ps".to_string(),
        status: status.to_string(),
        plan: plan.to_string(),
        started_at: t(1),
        expires_at: t(2),
        created_at: t(3),
        updated_at: t(4),
    }
}

#[test]
fn subscription_rows() {
    let sub = to_domain(&sub_row("paypay", "active", "premium")).unwrap();
    assert_eq!(sub.provider, SubscriptionProvider::Paypay);
    assert_eq!(sub.status, SubscriptionStatus::Active);
    assert_eq!(sub.plan, UserPlan::Premium);
    assert_eq!(sub.user_id.value(), 2);
    assert_eq!(sub.provider_subscription_id.value(), "ps");
    assert!(sub.is_active_at(t(1)));
    assert!(!sub.is_active_at(t(2)));
    match to_domain(&sub_row("stripte", "active", "free")) {
        Err(DomainError::Unexpected(s)) => assert_eq!(s, "unknow provider: stripte"),
        _ => panic!("expected an error"),
    }
    match to_domain(&sub_row("stripe", "paused", "free")) {
        Err(DomainError::Unexpected(s)) => assert_eq!(s, "unknown status: paused"),
        _ => panic!("expected an error"),
    }
    match to_domain(&sub_row("app_store", "expired", "gold")) {
        Err(DomainError::Unexpected(s)) => assert_eq!(s, "unknown plan: gold"),
        _ => panic!("expected an error"),
    }
}

#[test]
fn auth_rows() {
    let r = AuthRow::from_row("oauth", None, None, Some("apple".to_string()), Some("a1".to_string()), None, t(1), t(2));
    assert!(matches!(r, Ok(AuthRow::OAuth { provider: OAuthProvider::Apple, .. })));
    let e = AuthRow::from_row("password_hash", None, Some("h".to_string()), None, None, None, t(1), t(2));
    assert!(matches!(e, Err(DomainError::Unexpected(ref s)) if s == "email is null"));
    let e = AuthRow::from_row("oauth", None, None, Some("github".to_string()), Some("x".to_string()), None, t(1), t(2));
    assert!(matches!(e, Err(DomainError::Unexpected(ref s)) if s == "invalid OAuth provider"));
    let e = AuthRow::from_row("sms", None, None, None, None, None, t(1), t(2));
    assert!(matches!(e, Err(DomainError::Unexpected(ref s)) if s == "unknown auth kind: sms"));
    let d = AuthRow::from_row("mobile_device", None, None, None, None, Some("dev".to_string()), t(1), t(2));
    assert!(matches!(d, Ok(AuthRow::MobileDevice { .. })));
}

#[test]
fn user_rows() {
    let row = UserRow {
        id: 5,
        name: "bob".to_string(),
        plan: "free".to_string(),
        plan_expires_at: None,
        created_at: t(1),
        updated_at: t(2),
        kind: AuthRow::Password {
            email: " Bob@X.io ".to_string(),
            password_hash: "h".to_string(),
            created_at: t(3),
            updated_at: t(4),
        },
    };
    let user = row.into_domain().unwrap();
    assert_eq!(user.id.value(), 5);
    assert_eq!(user.auth.user_id.value(), 5);
    assert_eq!(user.auth.created_at, t(3));
    match &user.auth.auth_method {
        AuthMethod::Password { email, password_hash } => {
            assert_eq!(email.value(), "bob@x.io");
            assert_eq!(password_hash.value(), "h");
        }
        other => panic!("unexpected {:?}", other),
    }
    let bad = UserRow {
        id: 5,
        name: String::new(),
        plan: "free".to_string(),
        plan_expires_at: None,
        created_at: t(1),
        updated_at: t(2),
        kind: AuthRow::MobileDevice { device_id: "d".to_string(), created_at: t(3), updated_at: t(4) },
    };
    match bad.into_domain() {
        Err(DomainError::Unexpected(s)) => assert_eq!(s, "invalid user name: "),
        _ => panic!("expected an error"),
    }
    let bad_email = UserRow {
        id: 5,
        name: "n".to_string(),
        plan: "free".to_string(),
        plan_expires_at: None,
        created_at: t(1),
        updated_at: t(2),
        kind: AuthRow::OAuth {
            email: Some("NOPE".to_string()),
            provider: OAuthProvider::Google,
            provider_user_id: "g".to_string(),
            created_at: t(3),
            updated_at: t(4),
        },
    };
    match bad_email.into_domain() {
        Err(DomainError::Unexpected(s)) => assert_eq!(s, "invalid email: nope"),
        _ => panic!("expected an error"),
    }
}

#[test]
fn error_responses() {
    let r = AppError(DomainError::UserNotFound).to_response();
    assert_eq!((r.status, r.body.error.code, r.body.error.message), (404, "USER_NOT_FOUND", "user not found"));
    let r = AppError(DomainError::EmailAlreadyExists).to_response();
    assert_eq!((r.status, r.body.error.code), (409, "EMAIL_ALREADY_EXISTS"));
    let r = AppError(DomainError::IncorrectPassword).to_response();
    assert_eq!((r.status, r.body.error.code), (401, "INCORRECT_PASSWORD"));
    let r = AppError(DomainError::NotPasswordAuthUser).to_response();
    assert_eq!((r.status, r.body.error.code), (400, "NOT_PASSWORD_AUTH_USER"));
    let r = AppError(DomainError::InvalidEmail("x".to_string())).to_response();
    assert_eq!((r.status, r.body.error.code, r.body.error.detail), (400, "INVALID_EMAIL", Some("x".to_string())));
    let r = AppError(DomainError::Unauthorized).to_response();
    assert_eq!((r.status, r.body.error.code), (401, "UNAUTHORIZED"));
    let r = AppError(DomainError::InvalidRequest("bad".to_string())).to_response();
    assert_eq!((r.status, r.body.error.detail), (400, Some("bad".to_string())));
    let r = AppError::from(DomainError::Unexpected("secret detail".to_string())).to_response();
    assert_eq!((r.status, r.body.error.code, r.body.error.detail), (500, "INTERNAL_SERVER_ERROR", None));
    let b = ErrorBody::new("C", "m", None);
    assert_eq!((b.error.code, b.error.message), ("C", "m"));
}

#[test]
fn bearer_tokens() {
    assert_eq!(bearer_token(Some("Bearer abc.def")).unwrap(), "abc.def");
    assert_eq!(bearer_token(Some("Bearer ")).unwrap(), "");
    assert!(matches!(bearer_token(Some("bearer abc")), Err(DomainError::Unauthorized)));
    assert!(matches!(bearer_token(Some("Basic abc")), Err(DomainError::Unauthorized)));
    assert!(matches!(bearer_token(None), Err(DomainError::Unauthorized)));
}

#[test]
fn google_urls_and_inputs() {
    let client = GoogleOAuthClient::new("cid".to_string(), "sec".to_string(), "https://app/cb".to_string());
    assert_eq!(
        client.authorization_url(),
        "https://accounts.google.com/o/oauth2/v2/auth?client_id=cid&redirect_uri=https://app/cb&response_type=code&scope=openid%20email%20profile&access_type=offline"
    );
    let form = client.token_request_form("xyz");
    assert_eq!(form[0], ("code".to_string(), "xyz".to_string()));
    assert_eq!(form[4], ("grant_type".to_string(), "authorization_code".to_string()));
    let input = google_sign_up_input(GoogleUserInfo { sub: "s1".to_string(), email: None, name: None });
    assert_eq!(input.name, "Google user");
    assert_eq!(input.provider, OAuthProvider::Google);
    assert!(matches!(web_refresh_input(None), Err(DomainError::Unauthorized)));
    assert_eq!(web_refresh_input(Some("r".to_string())).unwrap().refresh_token, "r");
}

#[test]
fn session_issued_at_a_given_time() {
    let now = t(5_000_000_123);
    let (access, refresh, req) = issue_session(UserId::new(3), "k", now).unwrap();
    // The access token is the one issued at the whole second of `now`.
    assert_eq!(access, issue_token_at(3, 5_000, "k").unwrap());
    match req {
        RepoRequest::CreateRefreshToken { user_id, token_hash, expires_at } => {
            assert_eq!(user_id, UserId::new(3));
            assert_eq!(token_hash, hash_refresh_token(&refresh));
            assert_eq!(expires_at.micros(), 5_000_000_123 + 30 * 86_400_000_000);
        }
        other => panic!("unexpected {:?}", other),
    }
    // Before the Unix epoch, or with an expiry past the range, no session.
    assert!(matches!(issue_session(UserId::new(3), "k", t(-1)), Err(DomainError::Unexpected(_))));
    assert!(matches!(issue_session(UserId::new(3), "k", t(i64::MAX)), Err(DomainError::Unexpected(_))));
}

#[test]
fn clock_reads_after_the_epoch() {
    let now = rust_api::domain::types::utc_now().unwrap();
    assert!(now.micros() > 1_600_000_000_000_000);
    assert_eq!(now.whole_unix_secs(), Some((now.micros() / 1_000_000) as u64));
    assert_eq!(t(-5).whole_unix_secs(), None);
}

#[test]
fn hashed_password_verifies_and_differs_from_input() {
    let h = hash_password("secret pw").unwrap();
    assert_ne!(h.value(), "secret pw");
    assert!(verify_password("secret pw", h.value()).is_ok());
    assert!(matches!(verify_password("other", h.value()), Err(DomainError::IncorrectPassword)));
}

#[test]
fn issued_access_token_authenticates_until_expiry_and_leeway() {
    let token = issue_token_at(42, 1_000, "secret").unwrap();
    let header = format!("Bearer {}", token);
    // Expiry is 1_900; it is accepted up to 60 seconds past it.
    for now in [0u64, 1_000, 1_900, 1_960] {
        match authenticate(Some(&header), "secret", now) {
            Ok(AuthUser(claims)) => {
                assert_eq!(claims.sub, 42);
                assert_eq!(claims.exp, 1_900);
            }
            Err(e) => panic!("refused at {}: {:?}", now, e),
        }
    }
    assert!(matches!(authenticate(Some(&header), "secret", 1_961), Err(DomainError::Unauthorized)));
    // Another secret, a tampered token, no header or another scheme.
    assert!(matches!(authenticate(Some(&header), "other", 1_000), Err(DomainError::Unauthorized)));
    let tampered = format!("Bearer {}x", token);
    assert!(matches!(authenticate(Some(&tampered), "secret", 1_000), Err(DomainError::Unauthorized)));
    assert!(matches!(authenticate(None, "secret", 1_000), Err(DomainError::Unauthorized)));
    let basic = format!("Basic {}", token);
    assert!(matches!(authenticate(Some(&basic), "secret", 1_000), Err(DomainError::Unauthorized)));
}

#[test]
fn only_password_credentials_are_written_back() {
    let now = t(0);
    let hash = rust_api::domain::user::vo::PasswordHash::new("h".to_string());
    let password = UserAuth {
        user_id: UserId::new(1),
        auth_method: AuthMethod::Password {
            email: rust_api::domain::user::vo::Email::new("a@b".to_string()).unwrap(),
            password_hash: hash.clone(),
        },
        created_at: now,
        updated_at: now,
    };
    assert_eq!(password_hash_to_save(&password).unwrap().value(), "h");
    let device = UserAuth {
        user_id: UserId::new(1),
        auth_method: AuthMethod::MobileDevice {
            device_id: rust_api::domain::user::vo::DeviceId::new("d".to_string()),
        },
        created_at: now,
        updated_at: now,
    };
    match password_hash_to_save(&device) {
        Err(DomainError::Unexpected(m)) => assert_eq!(m, "cannot save mobile device auth method"),
        other => panic!("unexpected {:?}", other.map(|h| h.value().to_string())),
    }
}
