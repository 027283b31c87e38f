use vstd::prelude::*;

use crate::store::Role;

verus! {

/// Credentials presented at login.
#[derive(Debug)]
pub struct LoginRequest {
    pub username: String,
    pub password: String,
}

/// A self-registration.
#[derive(Debug)]
pub struct RegisterRequest {
    pub username: String,
    pub email: String,
    pub password: String,
    pub confirm_password: String,
    pub role: Role,
}

/// A refresh token presented for rotation or sign-out.
#[derive(Debug)]
pub struct RefreshRequest {
    pub refresh_token: String,
}

/// A fresh token pair and the access token's lifetime in seconds.
#[derive(Debug)]
pub struct AuthResponse {
    pub access_token: String,
    pub refresh_token: String,
    pub expires_in: i64,
}

#[derive(Debug)]
pub struct RegisterResponse {
    pub message: String,
    pub user_id: i32,
}

/// The code presented to confirm an address.
#[derive(Debug)]
pub struct VerifyEmailQuery {
    pub token: String,
}

#[derive(Debug)]
pub struct VerifyEmailResponse {
    pub message: String,
}

#[derive(Debug)]
pub struct ResendVerificationRequest {
    pub email: String,
}

/// A verification code that still has to be mailed to its address.
#[derive(Debug)]
pub struct PendingVerification {
    pub email: String,
    pub code: String,
}

/// A completed registration: the reply, and the mail to send.
#[derive(Debug)]
pub struct RegisterOutcome {
    pub response: RegisterResponse,
    pub pending: PendingVerification,
}

/// A completed resend request: the reply, which never reveals whether an
/// account matched, and the mail to send when one did.
#[derive(Debug)]
pub struct ResendOutcome {
    pub response: VerifyEmailResponse,
    pub pending: Option<PendingVerification>,
}

} // verus!
