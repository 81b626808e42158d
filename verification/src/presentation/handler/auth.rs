//! E-mail sign-up, web and mobile sign-in and refresh.
use vstd::prelude::*;
use crate::domain::error::DomainError;
use crate::usecase::auth::login_with_email::{LoginWithEmailInput, LoginWithEmailOutput};
use crate::usecase::auth::refresh_token::{RefreshTokenInput, RefreshTokenOutput};
use crate::usecase::auth::sign_up_with_email::{SignUpWithEmailInput, SignUpWithEmailOutput};

verus! {

/// Name of the cookie that carries the refresh token of a web session.
pub const REFRESH_COOKIE_NAME: &'static str = "refresh_token";

/// Path the refresh cookie is sent to.
pub const REFRESH_COOKIE_PATH: &'static str = "/web/auth/refresh";

/// Days the refresh cookie is kept.
pub const REFRESH_COOKIE_MAX_AGE_DAYS: i64 = 30i64;

/// The refresh cookie of a web session, as plain attributes.
pub struct RefreshCookie {
    pub name: &'static str,
    pub value: String,
    pub path: &'static str,
    pub max_age_days: i64,
    /// Hidden from scripts (`HttpOnly`).
    pub http_only: bool,
    /// Sent over HTTPS only (`Secure`).
    pub secure: bool,
    /// Sent with same-site requests only (`SameSite=Strict`).
    pub same_site_strict: bool,
}

/// The cookie that hands a web client its refresh token: named
/// `refresh_token`, sent only to the refresh path, kept 30 days, hidden
/// from scripts, HTTPS only and same-site only.
pub fn refresh_cookie(token: String) -> (res: RefreshCookie)
    ensures
        res.name == REFRESH_COOKIE_NAME,
        res.value == token,
        res.path == REFRESH_COOKIE_PATH,
        res.max_age_days == REFRESH_COOKIE_MAX_AGE_DAYS,
        res.http_only,
        res.secure,
        res.same_site_strict,
{
    RefreshCookie {
        name: REFRESH_COOKIE_NAME,
        value: token,
        path: REFRESH_COOKIE_PATH,
        max_age_days: REFRESH_COOKIE_MAX_AGE_DAYS,
        http_only: true,
        secure: true,
        same_site_strict: true,
    }
}

pub struct SignUpRequest {
    pub name: String,
    pub email: String,
    pub password: String,
}

pub struct SignUpResponse {
    pub user_id: i64,
    pub token: String,
}

pub struct LoginRequest {
    pub email: String,
    pub password: String,
}

pub struct WebLoginResponse {
    pub user_id: i64,
    pub access_token: String,
}

pub struct RefreshRequest {
    pub refresh_token: String,
}

pub struct RefreshResponse {
    pub user_id: i64,
    pub access_token: String,
    pub refresh_token: String,
}

impl SignUpRequest {
    pub fn into_input(self) -> (res: SignUpWithEmailInput)
        ensures
            res.name == self.name,
            res.email == self.email,
            res.password == self.password,
    {
        SignUpWithEmailInput { name: self.name, email: self.email, password: self.password }
    }
}

impl SignUpResponse {
    /// The new account and its access token.
    pub fn from_output(output: SignUpWithEmailOutput) -> (res: Self)
        ensures
            res.user_id == output.user_id,
            res.token == output.access_token,
    {
        SignUpResponse { user_id: output.user_id, token: output.access_token }
    }
}

impl LoginRequest {
    pub fn into_input(self) -> (res: LoginWithEmailInput)
        ensures
            res.email == self.email,
            res.password == self.password,
    {
        LoginWithEmailInput { email: self.email, password: self.password }
    }
}

impl WebLoginResponse {
    /// A web sign-in answers with the user and the access token in the
    /// body; the refresh token (second) goes into the refresh cookie.
    pub fn from_login(output: LoginWithEmailOutput) -> (res: (Self, String))
        ensures
            res.0.user_id == output.user_id,
            res.0.access_token == output.access_token,
            res.1 == output.refresh_token,
    {
        (
            WebLoginResponse { user_id: output.user_id, access_token: output.access_token },
            output.refresh_token,
        )
    }

    /// A web refresh answers like a web sign-in.
    pub fn from_refresh(output: RefreshTokenOutput) -> (res: (Self, String))
        ensures
            res.0.user_id == output.user_id,
            res.0.access_token == output.access_token,
            res.1 == output.refresh_token,
    {
        (
            WebLoginResponse { user_id: output.user_id, access_token: output.access_token },
            output.refresh_token,
        )
    }
}

impl RefreshRequest {
    pub fn into_input(self) -> (res: RefreshTokenInput)
        ensures
            res.refresh_token == self.refresh_token,
    {
        RefreshTokenInput { refresh_token: self.refresh_token }
    }
}

impl RefreshResponse {
    pub fn from_output(output: RefreshTokenOutput) -> (res: Self)
        ensures
            res.user_id == output.user_id,
            res.access_token == output.access_token,
            res.refresh_token == output.refresh_token,
    {
        RefreshResponse {
            user_id: output.user_id,
            access_token: output.access_token,
            refresh_token: output.refresh_token,
        }
    }
}

/// A web refresh reads the token from the refresh cookie; without the
/// cookie it is unauthorized.
pub fn web_refresh_input(cookie: Option<String>) -> (res: Result<RefreshTokenInput, DomainError>)
    ensures
        match cookie {
            Some(t) => res matches Ok(input) && input.refresh_token == t,
            None => res matches Err(DomainError::Unauthorized),
        },
{
    match cookie {
        Some(t) => Ok(RefreshTokenInput { refresh_token: t }),
        None => Err(DomainError::Unauthorized),
    }
}

} // verus!
