//! Sign-up, sign-in, token refresh and sign-out.
pub mod login_with_email;
pub mod logout;
pub mod password_crypto;
pub mod refresh_token;
pub mod session;
pub mod sign_up_with_email;
pub mod sign_up_with_mobile_device;
pub mod sign_up_with_oauth;
pub mod token;
