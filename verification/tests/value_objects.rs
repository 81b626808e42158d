use rust_api::domain::error::DomainError;
use rust_api::domain::subscription::vo::{SubscriptionProvider, SubscriptionStatus};
use rust_api::domain::types::UtcDateTime;
use rust_api::domain::user::user_auth::{AuthMethod, UserAuth};
use rust_api::domain::user::vo::{
    DeviceId, Email, OAuthProvider, PasswordHash, ProviderUserId, UserId, UserName, UserPlan,
};
use rust_api::domain::user::User;
use rust_api::presentation::handler::auth::refresh_cookie;

#[test]
fn email_valid() {
    let email = Email::new("test@example.com".to_string()).unwrap();
    assert_eq!(email.value(), "test@example.com");
}

#[test]
fn missing_at_is_invalid() {
    let result = Email::new("invalid-email".to_string());
    assert!(matches!(result, Err(DomainError::InvalidEmail(_))));
}

#[test]
fn email_empty_is_invalid() {
    let result = Email::new("".to_string());
    assert!(matches!(result, Err(DomainError::InvalidEmail(_))));
}

#[test]
fn user_name_valid() {
    let name = UserName::new("testname".to_string()).unwrap();
    assert_eq!(name.value(), "testname");
}

#[test]
fn user_name_empty_is_invalid() {
    let result = UserName::new("".to_string());
    assert!(matches!(result, Err(DomainError::InvalidUserName(_))));
}

#[test]
fn over_30_char_is_invalid() {
    let name = "a".repeat(31);
    let result = UserName::new(name.to_string());
    assert!(matches!(result, Err(DomainError::InvalidUserName(_))));
}

#[test]
fn exactly_30_char_is_valid() {
    let name = "a".repeat(30);
    assert!(UserName::new(name.to_string()).is_ok());
}

#[test]
fn email_is_trimmed_and_lowercased() {
    let email = Email::new("  Test.User@Example.COM \t\n".to_string()).unwrap();
    assert_eq!(email.value(), "test.user@example.com");
}

#[test]
fn email_error_carries_normalized_text() {
    match Email::new("  NoAtSign  ".to_string()) {
        Err(DomainError::InvalidEmail(s)) => assert_eq!(s, "noatsign"),
        other => panic!("unexpected {:?}", other),
    }
}

#[test]
fn email_unicode_white_space_is_trimmed() {
    let email = Email::new("\u{3000}a@b\u{00A0}".to_string()).unwrap();
    assert_eq!(email.value(), "a@b");
}

#[test]
fn user_name_counts_characters_not_bytes() {
    // 30 three-byte characters (90 bytes) are 30 characters: accepted.
    assert!(UserName::new("あ".repeat(30)).is_ok());
    assert!(UserName::new("あ".repeat(11)).is_ok());
    // 31 of them are refused, and the name is carried in the error.
    match UserName::new("あ".repeat(31)) {
        Err(DomainError::InvalidUserName(n)) => assert_eq!(n.value(), "あ".repeat(31)),
        other => panic!("unexpected {:?}", other),
    }
}

#[test]
fn oauth_provider_round_trip() {
    for p in [OAuthProvider::Google, OAuthProvider::Apple] {
        assert_eq!(OAuthProvider::from_str(p.as_str()), Some(p));
    }
    assert_eq!(OAuthProvider::Google.as_str(), "google");
    assert_eq!(OAuthProvider::Apple.as_str(), "apple");
    assert_eq!(OAuthProvider::from_str("Google"), None);
}

#[test]
fn user_plan_round_trip_and_premium() {
    for p in [UserPlan::Free, UserPlan::Premium] {
        assert_eq!(UserPlan::from_str(p.as_str()), Some(p));
    }
    assert!(UserPlan::Premium.is_premium());
    assert!(!UserPlan::Free.is_premium());
    assert_eq!(UserPlan::from_str("gold"), None);
}

#[test]
fn subscription_status_round_trip() {
    for s in [
        SubscriptionStatus::Active,
        SubscriptionStatus::Canceled,
        SubscriptionStatus::PastDue,
        SubscriptionStatus::Expired,
    ] {
        assert_eq!(SubscriptionStatus::from_str(s.as_str()), Some(s));
    }
    assert_eq!(SubscriptionStatus::PastDue.as_str(), "past_due");
}

#[test]
fn subscription_provider_round_trip_except_stripe() {
    for p in [
        SubscriptionProvider::GooglePlay,
        SubscriptionProvider::AppStore,
        SubscriptionProvider::Paypay,
    ] {
        assert_eq!(SubscriptionProvider::from_str(p.as_str()), Some(p));
    }
    assert_eq!(SubscriptionProvider::Stripe.as_str(), "stripte");
    assert_eq!(SubscriptionProvider::from_str("stripe"), Some(SubscriptionProvider::Stripe));
    assert_eq!(SubscriptionProvider::from_str(SubscriptionProvider::Stripe.as_str()), None);
}

#[test]
fn error_messages() {
    let name = match UserName::new(String::new()) {
        Err(DomainError::InvalidUserName(n)) => n,
        other => panic!("unexpected {:?}", other),
    };
    assert_eq!(DomainError::InvalidUserName(name).message(), "invalid user name: ");
    assert_eq!(DomainError::InvalidEmail("x".to_string()).message(), "invalid email: x");
    assert_eq!(DomainError::Unexpected("boom".to_string()).message(), "unexpected error: boom");
    assert_eq!(DomainError::UserNotFound.message(), "user not found");
    assert_eq!(DomainError::IncorrectPassword.message(), "current password is incorrect");
}

#[test]
fn users_and_credentials_built_at_a_given_time() {
    let at = UtcDateTime::from_micros(1_234);
    let email = Email::new("a@b".to_string()).unwrap();
    let hash = PasswordHash::new("h".to_string());
    let auth = UserAuth::new_password_at(UserId::new(9), email, hash, at);
    assert_eq!(auth.created_at, at);
    assert_eq!(auth.updated_at, at);
    let device = UserAuth::new_mobile_device_at(UserId::new(9), DeviceId::new("d".to_string()), at);
    assert!(matches!(device.auth_method, AuthMethod::MobileDevice { .. }));
    assert_eq!(device.created_at, at);
    let oauth = UserAuth::new_oauth_at(
        UserId::new(9),
        None,
        OAuthProvider::Apple,
        ProviderUserId::new("p".to_string()),
        at,
    );
    assert_eq!(oauth.updated_at, at);
    let mut user = User::new_at(UserId::new(9), UserName::new("n".to_string()).unwrap(), auth, at);
    assert_eq!(user.created_at, at);
    assert_eq!(user.updated_at, at);
    assert_eq!(user.plan, UserPlan::Free);
    assert!(user.plan_expires_at.is_none());
    let later = UtcDateTime::from_micros(5_678);
    user.change_name_at(UserName::new("m".to_string()).unwrap(), later);
    assert_eq!(user.name.value(), "m");
    assert_eq!(user.created_at, at);
    assert_eq!(user.updated_at, later);
}

#[test]
fn instants_shift_by_whole_days_both_ways() {
    let t = UtcDateTime::from_micros(0);
    assert_eq!(t.checked_add_days(1).unwrap().micros(), 86_400_000_000);
    assert_eq!(t.checked_add_days(-1).unwrap().micros(), -86_400_000_000);
    assert!(UtcDateTime::from_micros(i64::MIN).checked_add_days(-1).is_none());
}

#[test]
fn ascii_addresses_are_lower_cased_letter_by_letter() {
    let e = Email::new("  Test.User+X@Example.COM ".to_string()).unwrap();
    assert_eq!(e.value(), "test.user+x@example.com");
}

#[test]
fn refresh_cookie_attributes() {
    let c = refresh_cookie("tok".to_string());
    assert_eq!(c.name, "refresh_token");
    assert_eq!(c.value, "tok");
    assert_eq!(c.path, "/web/auth/refresh");
    assert_eq!(c.max_age_days, 30);
    assert!(c.http_only && c.secure && c.same_site_strict);
}
