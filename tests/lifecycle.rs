use identity_core::config::{REFRESH_TOKEN_TTL_SECS, VERIFICATION_TOKEN_TTL_SECS};
use identity_core::manager::{
    EMAIL_NOT_VERIFIED, INVALID_CODE, INVALID_CREDENTIALS, INVALID_REFRESH, PASSWORDS_DIFFER, PASSWORD_TOO_SHORT,
    REFRESH_EXPIRED, RESEND_REPLY,
};
use identity_core::{
    AppError, ErrorKind, IdentityManager, LoginRequest, RegisterRequest, ResendVerificationRequest, Role,
};

const NOW: i64 = 1_700_000_000;

fn request(username: &str, email: &str, password: &str, confirm: &str, role: Role) -> RegisterRequest {
    RegisterRequest {
        username: username.to_string(),
        email: email.to_string(),
        password: password.to_string(),
        confirm_password: confirm.to_string(),
        role,
    }
}

fn login_request(username: &str, password: &str) -> LoginRequest {
    LoginRequest { username: username.to_string(), password: password.to_string() }
}

/// Registers `alice` and returns the manager with the issued code.
fn registered() -> (IdentityManager, String) {
    let mut m = IdentityManager::new("test-secret".to_string());
    let out = m
        .register(&request("alice", "alice@example.com", "longenough1", "longenough1", Role::User), NOW)
        .expect("registration succeeds");
    assert_eq!(out.response.user_id, 1);
    assert_eq!(out.pending.email, "alice@example.com");
    (m, out.pending.code)
}

fn assert_error(r: Result<impl std::fmt::Debug, AppError>, kind: ErrorKind, message: &str) {
    match r {
        Err(e) => {
            assert_eq!(e.kind(), kind);
            assert_eq!(e.message(), message);
        },
        Ok(v) => panic!("expected an error, got {:?}", v),
    }
}

#[test]
fn verification_code_works_exactly_once() {
    let (mut m, code) = registered();
    assert!(m.holds_code(&code));
    let ok = m.verify_email(&code, NOW + 60).expect("first verification succeeds");
    assert_eq!(ok.message, "Email verified successfully. You can now log in.");
    assert!(m.find_user("alice").unwrap().email_verified);
    assert!(!m.holds_code(&code));
    assert_error(m.verify_email(&code, NOW + 61), ErrorKind::BadRequest, INVALID_CODE);
}

#[test]
fn login_before_verification_is_unauthorized() {
    let (mut m, _code) = registered();
    assert_error(m.login(&login_request("alice", "longenough1"), NOW), ErrorKind::Unauthorized, EMAIL_NOT_VERIFIED);
    assert_error(m.login(&login_request("alice", "wrongpassword"), NOW), ErrorKind::Unauthorized, INVALID_CREDENTIALS);
    assert_error(m.login(&login_request("bob", "longenough1"), NOW), ErrorKind::Unauthorized, INVALID_CREDENTIALS);
}

#[test]
fn refresh_rotation_is_single_use() {
    let (mut m, code) = registered();
    m.verify_email(&code, NOW).unwrap();
    let first = m.login(&login_request("alice", "longenough1"), NOW).expect("login succeeds");
    assert_eq!(first.expires_in, 3600);
    let t1 = first.refresh_token.clone();
    let second = m.refresh(&t1, NOW + 10).expect("first refresh succeeds");
    let t2 = second.refresh_token.clone();
    assert_ne!(t1, t2);
    assert!(!m.holds_session(&t1));
    assert!(m.holds_session(&t2));
    assert_error(m.refresh(&t1, NOW + 20), ErrorKind::Unauthorized, INVALID_REFRESH);
    let third = m.refresh(&t2, NOW + 30).expect("refresh with the replacement succeeds");
    assert_ne!(third.refresh_token, t2);
}

#[test]
fn resend_reply_reveals_nothing() {
    let (mut m, code) = registered();
    m.verify_email(&code, NOW).unwrap();
    let nobody = m
        .resend_verification(&ResendVerificationRequest { email: "nobody@example.com".to_string() }, NOW)
        .expect("unknown address gets the generic reply");
    let verified = m
        .resend_verification(&ResendVerificationRequest { email: "alice@example.com".to_string() }, NOW)
        .expect("verified address gets the generic reply");
    assert_eq!(nobody.response.message, verified.response.message);
    assert_eq!(nobody.response.message, RESEND_REPLY);
    assert!(nobody.pending.is_none());
    assert!(verified.pending.is_none());
}

#[test]
fn resend_replaces_the_code_of_an_unverified_user() {
    let (mut m, old_code) = registered();
    let out = m
        .resend_verification(&ResendVerificationRequest { email: "alice@example.com".to_string() }, NOW + 5)
        .expect("resend succeeds");
    assert_eq!(out.response.message, RESEND_REPLY);
    let pending = out.pending.expect("a mail is due");
    assert_eq!(pending.email, "alice@example.com");
    assert_ne!(pending.code, old_code);
    assert!(!m.holds_code(&old_code));
    assert!(m.holds_code(&pending.code));
    assert_error(m.verify_email(&old_code, NOW + 6), ErrorKind::BadRequest, INVALID_CODE);
    assert!(m.verify_email(&pending.code, NOW + 6).is_ok());
}

#[test]
fn password_policy_is_enforced() {
    let mut m = IdentityManager::new("s".to_string());
    assert_error(
        m.register(&request("carol", "carol@example.com", "short1", "short1", Role::User), NOW),
        ErrorKind::BadRequest,
        PASSWORD_TOO_SHORT,
    );
    assert_error(
        m.register(&request("carol", "carol@example.com", "longenough1", "longenough2", Role::User), NOW),
        ErrorKind::BadRequest,
        PASSWORDS_DIFFER,
    );
    assert!(m.find_user("carol").is_none());
}

#[test]
fn admin_self_registration_is_refused() {
    let mut m = IdentityManager::new("s".to_string());
    let admin = m.register(&request("dave", "dave@example.com", "longenough1", "longenough1", Role::Admin), NOW);
    assert_error(admin, ErrorKind::BadRequest, "Cannot self-register as admin");
    let user = m.register(&request("dave", "dave@example.com", "longenough1", "longenough1", Role::User), NOW);
    assert!(user.is_ok());
    assert_eq!(m.find_user("dave").unwrap().role, Role::User);
}

#[test]
fn duplicate_username_and_email_conflict() {
    let (mut m, _) = registered();
    assert_error(
        m.register(&request("alice", "other@example.com", "longenough1", "longenough1", Role::Coach), NOW),
        ErrorKind::Conflict,
        "Username already exists",
    );
    assert_error(
        m.register(&request("alice2", "alice@example.com", "longenough1", "longenough1", Role::Coach), NOW),
        ErrorKind::Conflict,
        "Email already exists",
    );
}

#[test]
fn invalid_email_is_refused() {
    let mut m = IdentityManager::new("s".to_string());
    assert_error(
        m.register(&request("erin", "erin.example.com", "longenough1", "longenough1", Role::User), NOW),
        ErrorKind::BadRequest,
        "Invalid email format",
    );
}

#[test]
fn refresh_token_expiry_boundary() {
    let (mut m2, code) = registered();
    m2.verify_email(&code, NOW).unwrap();
    m2.issue_refresh_token(1, "past-token".to_string(), NOW).unwrap();
    m2.issue_refresh_token(1, "future-token".to_string(), NOW).unwrap();
    let expiry = NOW + REFRESH_TOKEN_TTL_SECS;
    assert_eq!(m2.session_expiry("past-token"), Some(expiry));
    assert_error(m2.refresh("past-token", expiry + 1), ErrorKind::Unauthorized, REFRESH_EXPIRED);
    assert!(!m2.holds_session("past-token"));
    assert!(m2.refresh("future-token", expiry - 1).is_ok());
    assert!(!m2.holds_session("future-token"));
}

#[test]
fn expired_verification_code_is_refused_and_removed() {
    let (mut m, code) = registered();
    let late = NOW + VERIFICATION_TOKEN_TTL_SECS + 1;
    assert_error(
        m.verify_email(&code, late),
        ErrorKind::BadRequest,
        "Verification token has expired. Please request a new one.",
    );
    assert!(!m.holds_code(&code));
    assert!(!m.find_user("alice").unwrap().email_verified);
}

#[test]
fn issued_refresh_token_redeems_at_once() {
    let (mut m, code) = registered();
    m.verify_email(&code, NOW).unwrap();
    let token = m.create_refresh_token(1, NOW).expect("token stored");
    assert!(m.holds_session(&token));
    let r = m.refresh_with(&token, "replacement".to_string(), NOW).expect("redeem succeeds");
    assert_eq!(r.refresh_token, "replacement");
    assert!(m.holds_session("replacement"));
}

#[test]
fn refresh_of_missing_user_is_unauthorized_and_consumes_token() {
    let mut m = IdentityManager::new("s".to_string());
    m.issue_refresh_token(42, "orphan".to_string(), NOW).unwrap();
    assert_error(m.refresh("orphan", NOW), ErrorKind::Unauthorized, "User not found");
    assert!(!m.holds_session("orphan"));
}

#[test]
fn refresh_refuses_replacement_equal_to_presented() {
    let (mut m, code) = registered();
    m.verify_email(&code, NOW).unwrap();
    m.issue_refresh_token(1, "same".to_string(), NOW).unwrap();
    let r = m.refresh_with("same", "same".to_string(), NOW);
    assert_error(r, ErrorKind::InternalServerError, "Failed to store refresh token");
    assert!(!m.holds_session("same"));
}

#[test]
fn duplicate_refresh_value_is_refused() {
    let mut m = IdentityManager::new("s".to_string());
    assert!(m.issue_refresh_token(1, "t".to_string(), NOW).is_ok());
    assert_error(m.issue_refresh_token(2, "t".to_string(), NOW), ErrorKind::InternalServerError, "Failed to store refresh token");
}

#[test]
fn logout_is_idempotent() {
    let mut m = IdentityManager::new("s".to_string());
    m.issue_refresh_token(1, "session".to_string(), NOW).unwrap();
    m.logout("session");
    assert!(!m.holds_session("session"));
    m.logout("session");
    m.logout("never-issued");
    assert!(!m.holds_session("session"));
}

#[test]
fn verification_code_is_six_digits_and_unique_per_user() {
    let mut m = IdentityManager::new("s".to_string());
    let first = m.create_verification_token(7, NOW).unwrap();
    let second = m.create_verification_token(7, NOW).unwrap();
    for code in [&first, &second] {
        assert_eq!(code.len(), 6);
        let n: u32 = code.parse().unwrap();
        assert!((100000..=999999).contains(&n));
    }
    assert!(!m.holds_code(&first) || first == second);
    assert!(m.holds_code(&second));
    m.issue_verification_code(8, "123456".to_string(), NOW).unwrap();
    assert_error(
        m.issue_verification_code(9, "123456".to_string(), NOW),
        ErrorKind::InternalServerError,
        "Failed to store verification token",
    );
}
