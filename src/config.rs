use vstd::prelude::*;

verus! {

/// How long an access token stays valid, in hours.
pub const ACCESS_TOKEN_DURATION_HOURS: i64 = 1;

/// How long a refresh token stays valid, in days.
pub const REFRESH_TOKEN_DURATION_DAYS: i64 = 7;

/// How long an email-verification code stays valid, in hours.
pub const VERIFICATION_TOKEN_DURATION_HOURS: i64 = 24;

pub const SECONDS_PER_HOUR: i64 = 3600;

pub const ACCESS_TOKEN_TTL_SECS: i64 = ACCESS_TOKEN_DURATION_HOURS * SECONDS_PER_HOUR;

pub const REFRESH_TOKEN_TTL_SECS: i64 = REFRESH_TOKEN_DURATION_DAYS * 24 * SECONDS_PER_HOUR;

pub const VERIFICATION_TOKEN_TTL_SECS: i64 = VERIFICATION_TOKEN_DURATION_HOURS * SECONDS_PER_HOUR;

/// The audience that every access token is issued for.
pub const TOKEN_AUDIENCE: &'static str = "my-app";

/// The shortest password, in bytes, that registration accepts.
pub const MIN_PASSWORD_LEN: usize = 8;

/// The instant `ttl` seconds after `now`, held at the largest timestamp
/// where the sum would not fit.
pub open spec fn expiry_after(now: i64, ttl: i64) -> i64 {
    if now + ttl > i64::MAX {
        i64::MAX
    } else {
        (now + ttl) as i64
    }
}

pub fn add_ttl(now: i64, ttl: i64) -> (r: i64)
    requires
        ttl >= 0,
    ensures
        r == expiry_after(now, ttl),
{
    if now > i64::MAX - ttl {
        i64::MAX
    } else {
        now + ttl
    }
}

/// Outgoing-mail settings and the public address that links point to.
#[derive(Clone, Debug)]
pub struct SmtpConfig {
    pub smtp_host: String,
    pub smtp_username: String,
    pub smtp_password: String,
    pub from_email: String,
    pub app_url: String,
}

} // verus!
