use identity_core::access::{access_claims, generate_access_token};
use identity_core::catalog::{
    extract_s3_key_from_url, group_workouts, image_extension, raised_last_workout_number, WorkoutRun, image_size_allowed, page_window, query_window, s3_object_url,
    total_pages, ExerciseQueryParams, PageWindow, MAX_IMAGE_SIZE,
};
use identity_core::config::{add_ttl, SmtpConfig};
use identity_core::entropy::{format_code, generate_verification_code};
use identity_core::ledger::{TokenError, TokenLedger, TokenRecord};
use identity_core::mail::{compose_verification_email, verification_url};
use identity_core::manager::credential_decision;
use identity_core::password::{check_password, hash_password};
use identity_core::store::{CredentialStore, StoreError};
use identity_core::validation::is_valid_email;
use identity_core::{AppError, ErrorKind, Role, User};

#[test]
fn email_format_rules() {
    assert!(is_valid_email("a@b.c"));
    assert!(is_valid_email("user@example.com"));
    assert!(!is_valid_email("@."));
    assert!(!is_valid_email("userexample.com"));
    assert!(!is_valid_email("user@examplecom"));
    assert!(!is_valid_email(""));
}

#[test]
fn codes_are_written_with_six_digits() {
    assert_eq!(format_code(100000), "100000");
    assert_eq!(format_code(999999), "999999");
    assert_eq!(format_code(123456), "123456");
    assert_eq!(format_code(42), "000042");
}

#[test]
fn drawn_codes_lie_in_range() {
    for _ in 0..50 {
        let code = generate_verification_code();
        let n: u32 = code.parse().unwrap();
        assert!((100000..=999999).contains(&n));
        assert_eq!(code.len(), 6);
    }
}

#[test]
fn password_hash_round_trip() {
    let h1 = hash_password("correct horse").unwrap();
    let h2 = hash_password("correct horse").unwrap();
    assert_ne!(h1, "correct horse");
    assert_ne!(h1, h2);
    assert!(h1.starts_with("$argon2"));
    assert_eq!(check_password("correct horse", &h1).unwrap(), true);
    assert_eq!(check_password("wrong horse", &h1).unwrap(), false);
    let broken = check_password("correct horse", "not a hash").unwrap_err();
    assert_eq!(broken.kind(), ErrorKind::InternalServerError);
}

#[test]
fn credential_decisions() {
    assert!(credential_decision(Some(true), true).is_ok());
    assert_eq!(credential_decision(Some(true), false).unwrap_err().kind(), ErrorKind::Unauthorized);
    assert_eq!(credential_decision(Some(false), false).unwrap_err().kind(), ErrorKind::Unauthorized);
    assert_eq!(credential_decision(Some(false), true).unwrap_err().kind(), ErrorKind::Unauthorized);
    assert_eq!(credential_decision(None, true).unwrap_err().kind(), ErrorKind::InternalServerError);
}

fn sample_user() -> User {
    User {
        id: 3,
        username: "coachy".to_string(),
        email: "coachy@example.com".to_string(),
        password_hash: String::new(),
        role: Role::Coach,
        email_verified: true,
    }
}

#[test]
fn access_token_carries_the_claims() {
    let now = chrono::Utc::now().timestamp();
    let user = sample_user();
    let claims = access_claims(&user, now);
    assert_eq!(claims.sub, "coachy");
    assert_eq!(claims.aud, "my-app");
    assert_eq!(claims.role, "coach");
    assert_eq!(claims.exp, now + 3600);
    let token = generate_access_token(&user, "top-secret", now).unwrap();
    assert_eq!(token.split('.').count(), 3);
    let mut validation = jsonwebtoken::Validation::new(jsonwebtoken::Algorithm::HS256);
    validation.set_audience(&["my-app"]);
    let decoded = jsonwebtoken::decode::<serde_json::Value>(
        &token,
        &jsonwebtoken::DecodingKey::from_secret(b"top-secret"),
        &validation,
    )
    .unwrap();
    assert_eq!(decoded.claims["sub"], "coachy");
    assert_eq!(decoded.claims["role"], "coach");
    assert_eq!(decoded.claims["exp"], now + 3600);
    let other = jsonwebtoken::decode::<serde_json::Value>(
        &token,
        &jsonwebtoken::DecodingKey::from_secret(b"other-secret"),
        &validation,
    );
    assert!(other.is_err());
}

#[test]
fn expiry_saturates() {
    assert_eq!(add_ttl(10, 5), 15);
    assert_eq!(add_ttl(i64::MAX - 1, 5), i64::MAX);
}

#[test]
fn verification_mail_is_composed() {
    let config = SmtpConfig {
        smtp_host: "smtp.example.com".to_string(),
        smtp_username: "u".to_string(),
        smtp_password: "p".to_string(),
        from_email: "noreply@example.com".to_string(),
        app_url: "http://localhost:3000".to_string(),
    };
    assert_eq!(verification_url("http://localhost:3000", "123456"), "http://localhost:3000/verify-email?token=123456");
    let mail = compose_verification_email(&config, "alice@example.com", "654321");
    assert_eq!(mail.from, "noreply@example.com");
    assert_eq!(mail.to, "alice@example.com");
    assert_eq!(mail.subject, "Verify your email address");
    assert_eq!(mail.html_body.matches("http://localhost:3000/verify-email?token=654321").count(), 2);
    assert!(mail.html_body.contains("<strong>654321</strong>"));
}

#[test]
fn errors_map_to_status_codes() {
    let cases = [
        (AppError::new(ErrorKind::Unauthorized, "a"), 401),
        (AppError::new(ErrorKind::InternalServerError, "b"), 500),
        (AppError::new(ErrorKind::BadRequest, "c"), 400),
        (AppError::new(ErrorKind::Conflict, "d"), 409),
    ];
    for (e, status) in cases {
        let message = e.message().clone();
        let (code, body) = e.into_response_parts();
        assert_eq!(code, status);
        assert_eq!(body.error, message);
    }
}

#[test]
fn ledger_take_and_expiry() {
    let mut ledger = TokenLedger::new();
    assert!(ledger.insert(TokenRecord { user_id: 1, token: "a".to_string(), expires_at: 100 }));
    assert!(!ledger.insert(TokenRecord { user_id: 2, token: "a".to_string(), expires_at: 100 }));
    assert!(ledger.insert(TokenRecord { user_id: 2, token: "b".to_string(), expires_at: 100 }));
    assert_eq!(ledger.len(), 2);
    assert_eq!(ledger.take("missing", 50), Err(TokenError::Invalid));
    assert_eq!(ledger.take("a", 101), Err(TokenError::Expired));
    assert!(!ledger.contains("a"));
    assert_eq!(ledger.take("b", 100), Ok(2));
    assert_eq!(ledger.len(), 0);
}

#[test]
fn store_enforces_uniqueness() {
    let mut store = CredentialStore::new();
    let h = || "h".to_string();
    assert_eq!(store.insert("x".to_string(), "x@e.c".to_string(), h(), Role::User), Ok(1));
    assert_eq!(store.insert("x".to_string(), "y@e.c".to_string(), h(), Role::User), Err(StoreError::DuplicateUsername));
    assert_eq!(store.insert("y".to_string(), "x@e.c".to_string(), h(), Role::User), Err(StoreError::DuplicateEmail));
    assert_eq!(store.insert("y".to_string(), "y@e.c".to_string(), h(), Role::Coach), Ok(2));
    assert!(store.find_unverified_by_email("x@e.c").is_some());
    store.mark_verified(1);
    assert!(store.find_unverified_by_email("x@e.c").is_none());
    assert!(store.find_by_id(1).unwrap().email_verified);
    assert!(!store.find_by_id(2).unwrap().email_verified);
}

#[test]
fn s3_keys_are_extracted() {
    let url = s3_object_url("bucket", "programs/p1/f.png");
    assert_eq!(url, "https://bucket.s3.eu-central-1.amazonaws.com/programs/p1/f.png");
    assert_eq!(extract_s3_key_from_url(&url, "bucket"), Some("programs/p1/f.png".to_string()));
    assert_eq!(extract_s3_key_from_url(&url, "other"), None);
    assert_eq!(extract_s3_key_from_url("https://example.com/x", "bucket"), None);
}

#[test]
fn image_rules() {
    assert_eq!(image_extension("image/jpeg"), Some("jpg"));
    assert_eq!(image_extension("image/png"), Some("png"));
    assert_eq!(image_extension("image/webp"), Some("webp"));
    assert_eq!(image_extension("image/gif"), None);
    assert!(image_size_allowed(MAX_IMAGE_SIZE));
    assert!(!image_size_allowed(MAX_IMAGE_SIZE + 1));
}

#[test]
fn paging_rules() {
    assert_eq!(page_window(None, None), PageWindow { page: 1, limit: 20, skip: 0 });
    assert_eq!(page_window(Some(0), Some(500)), PageWindow { page: 1, limit: 100, skip: 0 });
    assert_eq!(page_window(Some(3), Some(10)), PageWindow { page: 3, limit: 10, skip: 20 });
    assert_eq!(page_window(Some(u64::MAX), Some(100)).skip, i64::MAX as u64);
    let params = ExerciseQueryParams { search: Some("squat".to_string()), page: Some(2), limit: None };
    assert_eq!(query_window(&params), PageWindow { page: 2, limit: 20, skip: 20 });
    assert_eq!(total_pages(0, 20), 0);
    assert_eq!(total_pages(40, 20), 2);
    assert_eq!(total_pages(41, 20), 3);
    assert_eq!(total_pages(5, 0), u64::MAX);
}

#[test]
fn week_exercises_group_by_workout() {
    let runs = group_workouts(&vec![1, 1, 2, 3, 3, 3, 1]);
    assert_eq!(
        runs,
        vec![
            WorkoutRun { workout_number: 1, count: 2 },
            WorkoutRun { workout_number: 2, count: 1 },
            WorkoutRun { workout_number: 3, count: 3 },
            WorkoutRun { workout_number: 1, count: 1 },
        ]
    );
    assert!(group_workouts(&vec![]).is_empty());
}

#[test]
fn last_workout_number_only_rises() {
    assert_eq!(raised_last_workout_number(2, &vec![1, 5, 3]), Some(5));
    assert_eq!(raised_last_workout_number(5, &vec![1, 5, 3]), None);
    assert_eq!(raised_last_workout_number(0, &vec![]), None);
    assert_eq!(raised_last_workout_number(-1, &vec![]), Some(0));
    assert_eq!(raised_last_workout_number(-10, &vec![-3, -7]), Some(-3));
}
