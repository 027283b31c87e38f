use jsonwebtoken::{EncodingKey, Header};
use vstd::prelude::*;

use crate::config::{add_ttl, expiry_after, ACCESS_TOKEN_TTL_SECS, TOKEN_AUDIENCE};
use crate::error::{failure, AppError, ErrorKind};
use crate::store::{role_name, User};

verus! {

#[verifier::external_type_specification]
#[verifier::external_body]
pub struct ExJwtError(jsonwebtoken::errors::Error);

/// The HS256-signed token for the claim set `{sub, exp, aud, role}` under
/// the given secret.
pub uninterp spec fn signed_token(sub: Seq<char>, exp: int, aud: Seq<char>, role: Seq<char>, secret: Seq<char>) -> Seq<char>;

pub const TOKEN_FAILED: &'static str = "Token generation failed";

/// The claims an access token carries: subject (the username), expiry,
/// audience and role.
#[derive(Debug)]
pub struct MyClaims {
    pub sub: String,
    pub exp: i64,
    pub aud: String,
    pub role: String,
}

/// The claims issued to `user` at time `now`.
pub open spec fn claims_for(user: User, now: i64) -> (Seq<char>, int, Seq<char>, Seq<char>) {
    (user.username@, expiry_after(now, ACCESS_TOKEN_TTL_SECS) as int, TOKEN_AUDIENCE@, role_name(user.role))
}

/// The access token issued to `user` at time `now` under `secret`.
pub open spec fn access_token_for(user: User, secret: Seq<char>, now: i64) -> Seq<char> {
    let (sub, exp, aud, role) = claims_for(user, now);
    signed_token(sub, exp, aud, role, secret)
}

/// Relies on `jsonwebtoken::encode` with the default header (HS256) and an
/// HMAC key made from the secret's bytes: HMAC takes a key of any length
/// and a map with text keys always serializes, so signing succeeds, and
/// the token is determined by the claims and the secret.
#[verifier::external_body]
fn encode_claims(claims: &MyClaims, secret: &str) -> (r: Result<String, jsonwebtoken::errors::Error>)
    ensures
        r is Ok,
        r matches Ok(t) ==> t@ == signed_token(claims.sub@, claims.exp as int, claims.aud@, claims.role@, secret@),
{
    let mut body = serde_json::Map::new();
    body.insert("sub".to_string(), serde_json::Value::from(claims.sub.as_str()));
    body.insert("exp".to_string(), serde_json::Value::from(claims.exp));
    body.insert("aud".to_string(), serde_json::Value::from(claims.aud.as_str()));
    body.insert("role".to_string(), serde_json::Value::from(claims.role.as_str()));
    jsonwebtoken::encode(&Header::default(), &body, &EncodingKey::from_secret(secret.as_bytes()))
}

/// The claim set for `user` at time `now`: it expires one access lifetime later.
pub fn access_claims(user: &User, now: i64) -> (r: MyClaims)
    ensures
        (r.sub@, r.exp as int, r.aud@, r.role@) == claims_for(*user, now),
{
    MyClaims {
        sub: user.username.clone(),
        exp: add_ttl(now, ACCESS_TOKEN_TTL_SECS),
        aud: TOKEN_AUDIENCE.to_owned(),
        role: user.role.as_str().to_owned(),
    }
}

/// Signs a fresh access token for `user`. Stateless.
pub fn generate_access_token(user: &User, secret: &str, now: i64) -> (r: Result<String, AppError>)
    ensures
        r is Ok,
        r matches Ok(t) ==> t@ == access_token_for(*user, secret@, now),
{
    let claims = access_claims(user, now);
    match encode_claims(&claims, secret) {
        Ok(t) => Ok(t),
        Err(_) => Err(AppError::new(ErrorKind::InternalServerError, TOKEN_FAILED)),
    }
}

} // verus!
