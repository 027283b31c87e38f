//! Identity and token lifecycle: a credential store, a single-use
//! email-verification ledger, a rotating refresh-token ledger and the
//! manager that ties them together, each operation stated as a transition
//! of an abstract state and proved against it.

pub mod error;
pub mod config;
pub mod validation;
pub mod ledger;
pub mod store;
pub mod password;
pub mod access;
pub mod entropy;
pub mod mail;
pub mod api;
pub mod manager;
pub mod laws;
pub mod catalog;

pub use api::{
    AuthResponse, LoginRequest, PendingVerification, RefreshRequest, RegisterOutcome, RegisterRequest,
    RegisterResponse, ResendOutcome, ResendVerificationRequest, VerifyEmailQuery, VerifyEmailResponse,
};
pub use error::{AppError, ErrorKind, ErrorResponse};
pub use manager::IdentityManager;
pub use store::{Role, User, UserBasic};
