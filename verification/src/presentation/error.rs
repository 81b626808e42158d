//! How domain errors are answered over HTTP.
use vstd::prelude::*;
use crate::domain::error::DomainError;
use crate::presentation::error_code::{self as ec, ErrorCode};

verus! {

/// A domain error on its way to becoming a response.
#[derive(Debug)]
pub struct AppError(pub DomainError);

impl From<DomainError> for AppError {
    fn from(e: DomainError) -> (res: Self) {
        AppError(e)
    }
}

impl vstd::std_specs::convert::FromSpecImpl<DomainError> for AppError {
    open spec fn obeys_from_spec() -> bool {
        true
    }

    open spec fn from_spec(e: DomainError) -> AppError {
        AppError(e)
    }
}

/// The detail of an error response.
pub struct ErrorDetail {
    pub code: &'static str,
    pub message: &'static str,
    pub detail: Option<String>,
}

/// The body of an error response.
pub struct ErrorBody {
    pub error: ErrorDetail,
}

impl ErrorBody {
    pub fn new(code: &'static str, message: &'static str, detail: Option<String>) -> (res: Self)
        ensures
            res.error.code == code,
            res.error.message == message,
            res.error.detail == detail,
    {
        ErrorBody { error: ErrorDetail { code, message, detail } }
    }
}

/// An error response: HTTP status and body.
pub struct ErrorResponse {
    pub status: u16,
    pub body: ErrorBody,
}

/// The HTTP status an error is answered with.
pub open spec fn error_status(e: DomainError) -> u16 {
    match e {
        DomainError::UserNotFound => 404,
        DomainError::EmailAlreadyExists => 409,
        DomainError::IncorrectPassword => 401,
        DomainError::NotPasswordAuthUser => 400,
        DomainError::InvalidEmail(_) => 400,
        DomainError::InvalidUserName(_) => 400,
        DomainError::Unauthorized => 401,
        DomainError::InvalidRequest(_) => 400,
        DomainError::Unexpected(_) => 500,
    }
}

/// The code an error is answered with.
pub open spec fn error_code_text(e: DomainError) -> Seq<char> {
    match e {
        DomainError::UserNotFound => "USER_NOT_FOUND"@,
        DomainError::EmailAlreadyExists => "EMAIL_ALREADY_EXISTS"@,
        DomainError::IncorrectPassword => "INCORRECT_PASSWORD"@,
        DomainError::NotPasswordAuthUser => "NOT_PASSWORD_AUTH_USER"@,
        DomainError::InvalidEmail(_) => "INVALID_EMAIL"@,
        DomainError::InvalidUserName(_) => "INVALID_USER_NAME"@,
        DomainError::Unauthorized => "UNAUTHORIZED"@,
        DomainError::InvalidRequest(_) => "INVALID_REQUEST"@,
        DomainError::Unexpected(_) => "INTERNAL_SERVER_ERROR"@,
    }
}

/// The message an error is answered with.
pub open spec fn error_code_message(e: DomainError) -> Seq<char> {
    match e {
        DomainError::UserNotFound => "user not found"@,
        DomainError::EmailAlreadyExists => "email already exists"@,
        DomainError::IncorrectPassword => "incorrect password"@,
        DomainError::NotPasswordAuthUser => "not a password auth user"@,
        DomainError::InvalidEmail(_) => "invalid email"@,
        DomainError::InvalidUserName(_) => "INVALID_USER_NAME"@,
        DomainError::Unauthorized => "unauthorized"@,
        DomainError::InvalidRequest(_) => "invalid request"@,
        DomainError::Unexpected(_) => "internal server error"@,
    }
}

/// The detail an error shows the client: the rejected e-mail address,
/// user name or request problem, and nothing for the others (an unexpected
/// error's text is kept out of the response).
pub open spec fn error_detail(e: DomainError) -> Option<Seq<char>> {
    match e {
        DomainError::InvalidEmail(d) => Some(d@),
        DomainError::InvalidUserName(n) => Some(n@),
        DomainError::InvalidRequest(d) => Some(d@),
        _ => None,
    }
}

fn code_for(e: &DomainError) -> (res: ErrorCode)
    ensures
        res.code@ == error_code_text(*e),
        res.message@ == error_code_message(*e),
{
    match e {
        DomainError::UserNotFound => ec::user_not_found(),
        DomainError::EmailAlreadyExists => ec::email_already_exists(),
        DomainError::IncorrectPassword => ec::incorrect_password(),
        DomainError::NotPasswordAuthUser => ec::not_password_auth_user(),
        DomainError::InvalidEmail(_) => ec::invalid_email(),
        DomainError::InvalidUserName(_) => ec::invalid_user_name(),
        DomainError::Unauthorized => ec::unauthorized(),
        DomainError::InvalidRequest(_) => ec::invalid_request(),
        DomainError::Unexpected(_) => ec::internal_server_error(),
    }
}

impl AppError {
    /// The status and body the error is answered with.
    pub fn to_response(&self) -> (res: ErrorResponse)
        ensures
            res.status == error_status(self.0),
            res.body.error.code@ == error_code_text(self.0),
            res.body.error.message@ == error_code_message(self.0),
            match error_detail(self.0) {
                Some(d) => res.body.error.detail matches Some(s) && s@ == d,
                None => res.body.error.detail is None,
            },
    {
        let e = &self.0;
        let status: u16 = match e {
            DomainError::UserNotFound => 404,
            DomainError::EmailAlreadyExists => 409,
            DomainError::IncorrectPassword => 401,
            DomainError::NotPasswordAuthUser => 400,
            DomainError::InvalidEmail(_) => 400,
            DomainError::InvalidUserName(_) => 400,
            DomainError::Unauthorized => 401,
            DomainError::InvalidRequest(_) => 400,
            DomainError::Unexpected(_) => 500,
        };
        let detail = match e {
            DomainError::InvalidEmail(d) => Some(d.clone()),
            DomainError::InvalidUserName(n) => Some(n.value().to_string()),
            DomainError::InvalidRequest(d) => Some(d.clone()),
            _ => None,
        };
        let code = code_for(e);
        ErrorResponse { status, body: ErrorBody::new(code.code, code.message, detail) }
    }
}

} // verus!
