use vstd::prelude::*;

use crate::access::{access_token_for, generate_access_token};
use crate::api::{
    AuthResponse, LoginRequest, PendingVerification, RegisterOutcome, RegisterRequest, RegisterResponse,
    ResendOutcome, ResendVerificationRequest, VerifyEmailResponse,
};
use crate::config::{
    add_ttl, expiry_after, ACCESS_TOKEN_TTL_SECS, MIN_PASSWORD_LEN, REFRESH_TOKEN_TTL_SECS,
    VERIFICATION_TOKEN_TTL_SECS,
};
use crate::entropy::{code_text, generate_verification_code, random_uuid_text, CODE_MAX, CODE_MIN};
use crate::error::{failure, AppError, ErrorKind, ErrorView};
use crate::ledger::{
    insert_spec, lemma_insert_spec, lemma_remove_spec, lemma_remove_user_spec, lemma_take_spec, one_per_user,
    remove_spec, remove_user_spec, take_spec, tokens_distinct, has_token, TokenError, TokenLedger,
    TokenRecord,
};
use crate::password::{
    argon2_accepts, check_password, hash_password, password_verdict, phc_parses, HASH_UNREADABLE, MAX_PASSWORD_BYTES,
};
use crate::store::{
    email_index, has_email, has_id, has_unverified_email, has_username, id_index, insert_user_spec,
    lemma_insert_user_spec, mark_verified_spec, store_wf, username_index,
    CredentialStore, Role, User,
};
use crate::validation::{byte_len, is_valid_email, valid_email};

verus! {

pub const INVALID_EMAIL: &'static str = "Invalid email format";

pub const PASSWORD_TOO_SHORT: &'static str = "Password must be at least 8 characters";

pub const PASSWORDS_DIFFER: &'static str = "Passwords do not match";

pub const ADMIN_FORBIDDEN: &'static str = "Cannot self-register as admin";

pub const USERNAME_TAKEN: &'static str = "Username already exists";

pub const EMAIL_TAKEN: &'static str = "Email already exists";

pub const USER_CREATE_FAILED: &'static str = "Failed to create user";

pub const CODE_STORE_FAILED: &'static str = "Failed to store verification token";

pub const REGISTERED: &'static str =
    "User registered successfully. Please check your email to verify your account.";

pub const INVALID_CREDENTIALS: &'static str = "Invalid username or password";

pub const EMAIL_NOT_VERIFIED: &'static str = "Please verify your email before logging in";

pub const REFRESH_STORE_FAILED: &'static str = "Failed to store refresh token";

pub const INVALID_REFRESH: &'static str = "Invalid refresh token";

pub const REFRESH_EXPIRED: &'static str = "Refresh token expired";

pub const USER_NOT_FOUND: &'static str = "User not found";

pub const INVALID_CODE: &'static str = "Invalid or expired verification token";

pub const CODE_EXPIRED: &'static str = "Verification token has expired. Please request a new one.";

pub const EMAIL_VERIFIED: &'static str = "Email verified successfully. You can now log in.";

pub const RESEND_REPLY: &'static str =
    "If an unverified account exists with this email, a verification link has been sent.";

/// How many codes are drawn before issuing gives up on finding a free one.
pub const MAX_CODE_DRAWS: u32 = 16;

/// The abstract state: users, the next user id, the verification codes
/// and the refresh tokens (sessions).
pub struct AuthState {
    pub users: Seq<User>,
    pub next_id: int,
    pub codes: Seq<TokenRecord>,
    pub sessions: Seq<TokenRecord>,
}

impl AuthState {
    /// Users are unique by id, name and address; no code or session value
    /// is held twice; a user has at most one active code.
    pub open spec fn wf(self) -> bool {
        &&& store_wf(self.users, self.next_id)
        &&& tokens_distinct(self.codes)
        &&& one_per_user(self.codes)
        &&& tokens_distinct(self.sessions)
    }
}

pub open spec fn unauthorized(m: &str) -> ErrorView {
    failure(ErrorKind::Unauthorized, m@)
}

pub open spec fn bad_request(m: &str) -> ErrorView {
    failure(ErrorKind::BadRequest, m@)
}

pub open spec fn internal(m: &str) -> ErrorView {
    failure(ErrorKind::InternalServerError, m@)
}

pub open spec fn conflict(m: &str) -> ErrorView {
    failure(ErrorKind::Conflict, m@)
}

/// The first rule that a registration breaks, if any, in the order:
/// address format, password length, confirmation, role, username, address.
pub open spec fn registration_error(users: Seq<User>, req: RegisterRequest) -> Option<ErrorView> {
    if !valid_email(req.email@) {
        Some(bad_request(INVALID_EMAIL))
    } else if byte_len(req.password@) < MIN_PASSWORD_LEN {
        Some(bad_request(PASSWORD_TOO_SHORT))
    } else if req.password@ != req.confirm_password@ {
        Some(bad_request(PASSWORDS_DIFFER))
    } else if req.role == Role::Admin {
        Some(bad_request(ADMIN_FORBIDDEN))
    } else if has_username(users, req.username@) {
        Some(conflict(USERNAME_TAKEN))
    } else if has_email(users, req.email@) {
        Some(conflict(EMAIL_TAKEN))
    } else {
        None
    }
}

/// The record that a verification code is stored as.
pub open spec fn code_record(user_id: i32, code: String, now: i64) -> TokenRecord {
    TokenRecord { user_id, token: code, expires_at: expiry_after(now, VERIFICATION_TOKEN_TTL_SECS) }
}

/// The record that a refresh token is stored as.
pub open spec fn session_record(user_id: i32, token: String, now: i64) -> TokenRecord {
    TokenRecord { user_id, token, expires_at: expiry_after(now, REFRESH_TOKEN_TTL_SECS) }
}

/// Issuing a code: the user's earlier code is deleted, then the new one is
/// stored unless another user holds the same value.
pub open spec fn issue_code_spec(codes: Seq<TokenRecord>, user_id: i32, code: String, now: i64) -> (Seq<TokenRecord>, bool) {
    insert_spec(remove_user_spec(codes, user_id), code_record(user_id, code, now))
}

/// Registration after the checks, given the password hash and the code.
pub open spec fn register_spec(s: AuthState, req: RegisterRequest, hash: String, code: String, now: i64) -> (AuthState, Result<i32, ErrorView>) {
    match registration_error(s.users, req) {
        Some(e) => (s, Err(e)),
        None => {
            let (users1, next1, inserted) = insert_user_spec(s.users, s.next_id, req.username, req.email, hash, req.role);
            match inserted {
                Err(_) => (s, Err(internal(USER_CREATE_FAILED))),
                Ok(id) => {
                    let (codes1, stored) = issue_code_spec(s.codes, id, code, now);
                    let s1 = AuthState { users: users1, next_id: next1, codes: codes1, sessions: s.sessions };
                    if stored {
                        (s1, Ok(id))
                    } else {
                        (s1, Err(internal(CODE_STORE_FAILED)))
                    }
                },
            }
        },
    }
}

/// The decision on a login attempt once the user is found: a hash that
/// does not parse is an internal error, a wrong password and an unverified
/// address are both refused.
pub open spec fn credential_check(verdict: Option<bool>, email_verified: bool) -> Option<ErrorView> {
    match verdict {
        None => Some(internal(HASH_UNREADABLE)),
        Some(false) => Some(unauthorized(INVALID_CREDENTIALS)),
        Some(true) => if email_verified {
            None
        } else {
            Some(unauthorized(EMAIL_NOT_VERIFIED))
        },
    }
}

/// Login, given the refresh-token value to issue.
pub open spec fn login_spec(
    s: AuthState,
    username: Seq<char>,
    password: Seq<char>,
    new_token: String,
    now: i64,
) -> (AuthState, Result<i32, ErrorView>) {
    if !has_username(s.users, username) {
        (s, Err(unauthorized(INVALID_CREDENTIALS)))
    } else {
        let u = s.users[username_index(s.users, username)];
        match credential_check(password_verdict(password, u.password_hash@), u.email_verified) {
            Some(e) => (s, Err(e)),
            None => {
                let (sessions1, stored) = insert_spec(s.sessions, session_record(u.id, new_token, now));
                if stored {
                    (AuthState { sessions: sessions1, ..s }, Ok(u.id))
                } else {
                    (s, Err(internal(REFRESH_STORE_FAILED)))
                }
            },
        }
    }
}

/// Rotation: the presented token is redeemed (and so deleted) first; the
/// replacement is stored only if the owner still exists and its value
/// differs from the presented one.
pub open spec fn refresh_spec(
    s: AuthState,
    presented: Seq<char>,
    new_token: String,
    now: i64,
) -> (AuthState, Result<i32, ErrorView>) {
    let (sessions1, taken) = take_spec(s.sessions, presented, now);
    let s1 = AuthState { sessions: sessions1, ..s };
    match taken {
        Err(TokenError::Invalid) => (s1, Err(unauthorized(INVALID_REFRESH))),
        Err(TokenError::Expired) => (s1, Err(unauthorized(REFRESH_EXPIRED))),
        Ok(uid) => if !has_id(s.users, uid) {
            (s1, Err(unauthorized(USER_NOT_FOUND)))
        } else if new_token@ == presented {
            (s1, Err(internal(REFRESH_STORE_FAILED)))
        } else {
            let (sessions2, stored) = insert_spec(sessions1, session_record(uid, new_token, now));
            if stored {
                (AuthState { sessions: sessions2, ..s }, Ok(uid))
            } else {
                (s1, Err(internal(REFRESH_STORE_FAILED)))
            }
        },
    }
}

/// Sign-out: the token is deleted if it exists.
pub open spec fn logout_spec(s: AuthState, token: Seq<char>) -> AuthState {
    AuthState { sessions: remove_spec(s.sessions, token), ..s }
}

/// Email verification: the code is consumed; an unknown code changes
/// nothing, an expired one is deleted, a valid one flags its owner.
pub open spec fn verify_email_spec(s: AuthState, code: Seq<char>, now: i64) -> (AuthState, Result<i32, ErrorView>) {
    let (codes1, taken) = take_spec(s.codes, code, now);
    match taken {
        Err(TokenError::Invalid) => (s, Err(bad_request(INVALID_CODE))),
        Err(TokenError::Expired) => (AuthState { codes: codes1, ..s }, Err(bad_request(CODE_EXPIRED))),
        Ok(uid) => (AuthState { users: mark_verified_spec(s.users, uid), codes: codes1, ..s }, Ok(uid)),
    }
}

/// Resending: nothing happens unless an unverified user has this address;
/// then a fresh code replaces that user's earlier one. `Ok(None)` and
/// `Ok(Some(_))` produce the same reply.
pub open spec fn resend_spec(s: AuthState, email: Seq<char>, code: String, now: i64) -> (AuthState, Result<Option<i32>, ErrorView>) {
    if !has_unverified_email(s.users, email) {
        (s, Ok(None))
    } else {
        let uid = s.users[email_index(s.users, email)].id;
        let (codes1, stored) = issue_code_spec(s.codes, uid, code, now);
        if stored {
            (AuthState { codes: codes1, ..s }, Ok(Some(uid)))
        } else {
            (AuthState { codes: codes1, ..s }, Err(internal(CODE_STORE_FAILED)))
        }
    }
}

pub open spec fn unit_view(r: Result<(), AppError>) -> Option<ErrorView> {
    match r {
        Ok(_) => None,
        Err(e) => Some(e@),
    }
}

pub open spec fn registered_view(r: Result<RegisterOutcome, AppError>) -> Result<i32, ErrorView> {
    match r {
        Ok(o) => Ok(o.response.user_id),
        Err(e) => Err(e@),
    }
}

pub open spec fn is_internal(r: Result<RegisterOutcome, AppError>) -> bool {
    r matches Err(e) && e@.kind == ErrorKind::InternalServerError
}

/// Whether an executable result and an abstract one agree: both succeed,
/// or both fail with the same error.
pub open spec fn same_outcome<T, U>(r: Result<T, AppError>, expected: Result<U, ErrorView>) -> bool {
    match (r, expected) {
        (Ok(_), Ok(_)) => true,
        (Err(e), Err(v)) => e@ == v,
        _ => false,
    }
}

/// The decision on a login attempt once the user is found (see
/// `credential_check`); `verdict` is the outcome of the password check.
pub fn credential_decision(verdict: Option<bool>, email_verified: bool) -> (r: Result<(), AppError>)
    ensures
        unit_view(r) == credential_check(verdict, email_verified),
{
    match verdict {
        None => Err(AppError::new(ErrorKind::InternalServerError, HASH_UNREADABLE)),
        Some(false) => Err(AppError::new(ErrorKind::Unauthorized, INVALID_CREDENTIALS)),
        Some(true) => if email_verified {
            Ok(())
        } else {
            Err(AppError::new(ErrorKind::Unauthorized, EMAIL_NOT_VERIFIED))
        },
    }
}

/// The identity and token lifecycle manager: every operation validates its
/// input, consults the store and the ledgers, and returns a result or a
/// typed failure.
pub struct IdentityManager {
    jwt_secret: String,
    users: CredentialStore,
    codes: TokenLedger,
    sessions: TokenLedger,
}

impl View for IdentityManager {
    type V = AuthState;

    closed spec fn view(&self) -> AuthState {
        AuthState {
            users: self.users@.users,
            next_id: self.users@.next_id,
            codes: self.codes@,
            sessions: self.sessions@,
        }
    }
}

impl IdentityManager {
    /// The secret that access tokens are signed with.
    pub closed spec fn secret(&self) -> Seq<char> {
        self.jwt_secret@
    }

    pub open spec fn wf(&self) -> bool {
        self@.wf()
    }

    /// An empty manager that signs access tokens with `jwt_secret`.
    pub fn new(jwt_secret: String) -> (r: IdentityManager)
        ensures
            r.wf(),
            r.secret() == jwt_secret@,
            r@.users.len() == 0,
            r@.next_id == 1,
            r@.codes.len() == 0,
            r@.sessions.len() == 0,
    {
        IdentityManager {
            jwt_secret,
            users: CredentialStore::new(),
            codes: TokenLedger::new(),
            sessions: TokenLedger::new(),
        }
    }

    /// The user with this username.
    pub fn find_user(&self, username: &str) -> (r: Option<User>)
        requires
            self.wf(),
        ensures
            r == if has_username(self@.users, username@) {
                Some(self@.users[username_index(self@.users, username@)])
            } else {
                None::<User>
            },
    {
        self.users.find_by_username(username)
    }

    /// Whether this refresh token is in the ledger.
    pub fn holds_session(&self, token: &str) -> (r: bool)
        ensures
            r == has_token(self@.sessions, token@),
    {
        self.sessions.contains(token)
    }

    /// The expiry of this refresh token, if it is in the ledger.
    pub fn session_expiry(&self, token: &str) -> (r: Option<i64>)
        requires
            self.wf(),
        ensures
            r == if has_token(self@.sessions, token@) {
                Some(self@.sessions[crate::ledger::token_index(self@.sessions, token@)].expires_at)
            } else {
                None::<i64>
            },
    {
        self.sessions.expiry_of(token)
    }

    /// Whether this verification code is in the ledger.
    pub fn holds_code(&self, code: &str) -> (r: bool)
        ensures
            r == has_token(self@.codes, code@),
    {
        self.codes.contains(code)
    }

    /// Checks a registration against the rules (see `registration_error`).
    pub fn check_registration(&self, req: &RegisterRequest) -> (r: Result<(), AppError>)
        requires
            self.wf(),
        ensures
            unit_view(r) == registration_error(self@.users, *req),
    {
        if !is_valid_email(req.email.as_str()) {
            return Err(AppError::new(ErrorKind::BadRequest, INVALID_EMAIL));
        }
        if req.password.as_str().as_bytes().len() < MIN_PASSWORD_LEN {
            return Err(AppError::new(ErrorKind::BadRequest, PASSWORD_TOO_SHORT));
        }
        if !(req.password == req.confirm_password) {
            return Err(AppError::new(ErrorKind::BadRequest, PASSWORDS_DIFFER));
        }
        if req.role == Role::Admin {
            return Err(AppError::new(ErrorKind::BadRequest, ADMIN_FORBIDDEN));
        }
        if self.users.find_by_username(req.username.as_str()).is_some() {
            return Err(AppError::new(ErrorKind::Conflict, USERNAME_TAKEN));
        }
        if self.users.find_by_email(req.email.as_str()).is_some() {
            return Err(AppError::new(ErrorKind::Conflict, EMAIL_TAKEN));
        }
        Ok(())
    }

    /// Issues `code` to `user_id`, replacing the user's earlier code.
    pub fn issue_verification_code(&mut self, user_id: i32, code: String, now: i64) -> (r: Result<(), AppError>)
        requires
            old(self).wf(),
        ensures
            final(self).wf(),
            final(self).secret() == old(self).secret(),
            final(self)@ == (AuthState { codes: issue_code_spec(old(self)@.codes, user_id, code, now).0, ..old(self)@ }),
            r is Ok <==> issue_code_spec(old(self)@.codes, user_id, code, now).1,
            r matches Err(e) ==> e@ == internal(CODE_STORE_FAILED),
    {
        proof {
            lemma_remove_user_spec(self@.codes, user_id);
            lemma_insert_spec(remove_user_spec(self@.codes, user_id), code_record(user_id, code, now));
        }
        self.codes.remove_user(user_id);
        let expires_at = add_ttl(now, VERIFICATION_TOKEN_TTL_SECS);
        if self.codes.insert(TokenRecord { user_id, token: code, expires_at }) {
            Ok(())
        } else {
            Err(AppError::new(ErrorKind::InternalServerError, CODE_STORE_FAILED))
        }
    }

    /// Draws verification codes until one is free, a bounded number of times.
    fn draw_unused_code(&self) -> (r: Option<String>)
        ensures
            r matches Some(c) ==> !has_token(self@.codes, c@)
                && exists|n: int| CODE_MIN <= n <= CODE_MAX && c@ == code_text(n),
            self@.codes.len() == 0 ==> r is Some,
    {
        let mut draws: u32 = 0;
        while draws < MAX_CODE_DRAWS
            invariant
                draws > 0 ==> self@.codes.len() > 0,
            decreases MAX_CODE_DRAWS - draws,
        {
            let code = generate_verification_code();
            if !self.codes.contains(code.as_str()) {
                return Some(code);
            }
            draws = draws + 1;
        }
        None
    }

    /// Issues a freshly drawn code to `user_id`, replacing the user's
    /// earlier one, and returns it.
    pub fn create_verification_token(&mut self, user_id: i32, now: i64) -> (r: Result<String, AppError>)
        requires
            old(self).wf(),
        ensures
            final(self).wf(),
            final(self).secret() == old(self).secret(),
            match r {
                Ok(c) => {
                    &&& !has_token(old(self)@.codes, c@)
                    &&& exists|n: int| CODE_MIN <= n <= CODE_MAX && c@ == code_text(n)
                    &&& final(self)@ == (AuthState {
                        codes: remove_user_spec(old(self)@.codes, user_id).push(code_record(user_id, c, now)),
                        ..old(self)@
                    })
                },
                Err(e) => e@ == internal(CODE_STORE_FAILED) && final(self)@ == old(self)@,
            },
            old(self)@.codes.len() == 0 ==> r is Ok,
    {
        let code = match self.draw_unused_code() {
            Some(c) => c,
            None => return Err(AppError::new(ErrorKind::InternalServerError, CODE_STORE_FAILED)),
        };
        proof {
            lemma_remove_user_spec(self@.codes, user_id);
        }
        let copy = code.clone();
        match self.issue_verification_code(user_id, code, now) {
            Err(e) => Err(e),
            Ok(_) => Ok(copy),
        }
    }

    /// Registration once the password is hashed and a code is drawn: the
    /// checks, then the new unverified user, then its code. A failure after
    /// the user is created leaves the user in place.
    pub fn register_with(&mut self, req: &RegisterRequest, password_hash: String, code: String, now: i64) -> (r: Result<RegisterOutcome, AppError>)
        requires
            old(self).wf(),
        ensures
            final(self).wf(),
            final(self).secret() == old(self).secret(),
            (final(self)@, registered_view(r)) == register_spec(old(self)@, *req, password_hash, code, now),
            r matches Ok(o) ==> {
                &&& o.response.message@ == REGISTERED@
                &&& o.pending.email@ == req.email@
                &&& o.pending.code@ == code@
            },
    {
        match self.check_registration(req) {
            Err(e) => return Err(e),
            Ok(_) => {},
        }
        proof {
            lemma_insert_user_spec(self@.users, self@.next_id, req.username, req.email, password_hash, req.role);
        }
        let inserted = self.users.insert(req.username.clone(), req.email.clone(), password_hash, req.role);
        let id = match inserted {
            Err(_) => return Err(AppError::new(ErrorKind::InternalServerError, USER_CREATE_FAILED)),
            Ok(id) => id,
        };
        let copy = code.clone();
        match self.issue_verification_code(id, code, now) {
            Err(e) => return Err(e),
            Ok(_) => {},
        }
        Ok(RegisterOutcome {
            response: RegisterResponse { message: REGISTERED.to_owned(), user_id: id },
            pending: PendingVerification { email: req.email.clone(), code: copy },
        })
    }

    /// Self-registration. The checks of `registration_error` come first and
    /// change nothing; then the password is hashed under a fresh salt and a
    /// free six-digit code is drawn, and registration proceeds as
    /// `register_spec` says for that hash and code. Only hashing or drawing
    /// can fail in between, as an internal error that changes nothing.
    pub fn register(&mut self, req: &RegisterRequest, now: i64) -> (r: Result<RegisterOutcome, AppError>)
        requires
            old(self).wf(),
        ensures
            final(self).wf(),
            final(self).secret() == old(self).secret(),
            match registration_error(old(self)@.users, *req) {
                Some(e) => r matches Err(x) && x@ == e && final(self)@ == old(self)@,
                None => (is_internal(r) && final(self)@ == old(self)@) || exists|hash: String, code: String| {
                    &&& phc_parses(hash@)
                    &&& argon2_accepts(req.password@, hash@)
                    &&& !has_token(old(self)@.codes, code@)
                    &&& exists|n: int| CODE_MIN <= n <= CODE_MAX && code@ == code_text(n)
                    &&& (final(self)@, registered_view(r)) == register_spec(old(self)@, *req, hash, code, now)
                    &&& r matches Ok(o) ==> o.pending.code@ == code@ && o.pending.email@ == req.email@
                },
            },
            r matches Ok(o) ==> o.response.message@ == REGISTERED@,
            registration_error(old(self)@.users, *req) is None && old(self)@.codes.len() == 0 && old(self)@.next_id
                < i32::MAX && byte_len(req.password@) <= MAX_PASSWORD_BYTES ==> r is Ok,
    {
        match self.check_registration(req) {
            Err(e) => return Err(e),
            Ok(_) => {},
        }
        let hash = match hash_password(req.password.as_str()) {
            Err(e) => return Err(e),
            Ok(h) => h,
        };
        let code = match self.draw_unused_code() {
            None => return Err(AppError::new(ErrorKind::InternalServerError, CODE_STORE_FAILED)),
            Some(c) => c,
        };
        proof {
            lemma_remove_user_spec(self@.codes, self@.next_id as i32);
        }
        self.register_with(req, hash, code, now)
    }

    /// Stores refresh token `token` for `user_id`, unless the value is taken.
    pub fn issue_refresh_token(&mut self, user_id: i32, token: String, now: i64) -> (r: Result<(), AppError>)
        requires
            old(self).wf(),
        ensures
            final(self).wf(),
            final(self).secret() == old(self).secret(),
            final(self)@ == (AuthState {
                sessions: insert_spec(old(self)@.sessions, session_record(user_id, token, now)).0,
                ..old(self)@
            }),
            r is Ok <==> insert_spec(old(self)@.sessions, session_record(user_id, token, now)).1,
            r matches Err(e) ==> e@ == internal(REFRESH_STORE_FAILED),
    {
        proof {
            lemma_insert_spec(self@.sessions, session_record(user_id, token, now));
        }
        let expires_at = add_ttl(now, REFRESH_TOKEN_TTL_SECS);
        if self.sessions.insert(TokenRecord { user_id, token, expires_at }) {
            Ok(())
        } else {
            Err(AppError::new(ErrorKind::InternalServerError, REFRESH_STORE_FAILED))
        }
    }

    /// Stores a freshly drawn random refresh token for `user_id` and returns it.
    pub fn create_refresh_token(&mut self, user_id: i32, now: i64) -> (r: Result<String, AppError>)
        requires
            old(self).wf(),
        ensures
            final(self).wf(),
            final(self).secret() == old(self).secret(),
            match r {
                Ok(t) => !has_token(old(self)@.sessions, t@) && final(self)@ == (AuthState {
                    sessions: old(self)@.sessions.push(session_record(user_id, t, now)),
                    ..old(self)@
                }),
                Err(e) => e@ == internal(REFRESH_STORE_FAILED) && final(self)@ == old(self)@,
            },
            old(self)@.sessions.len() == 0 ==> r is Ok,
    {
        let token = random_uuid_text();
        let copy = token.clone();
        match self.issue_refresh_token(user_id, token, now) {
            Err(e) => Err(e),
            Ok(_) => Ok(copy),
        }
    }

    /// Login once the refresh-token value is drawn (see `login_spec`).
    pub fn login_with(&mut self, req: &LoginRequest, new_token: String, now: i64) -> (r: Result<AuthResponse, AppError>)
        requires
            old(self).wf(),
        ensures
            final(self).wf(),
            final(self).secret() == old(self).secret(),
            final(self)@ == login_spec(old(self)@, req.username@, req.password@, new_token, now).0,
            same_outcome(r, login_spec(old(self)@, req.username@, req.password@, new_token, now).1),
            r matches Ok(resp) ==> {
                let u = old(self)@.users[username_index(old(self)@.users, req.username@)];
                &&& resp.access_token@ == access_token_for(u, old(self).secret(), now)
                &&& resp.refresh_token@ == new_token@
                &&& resp.expires_in == ACCESS_TOKEN_TTL_SECS
            },
            has_username(old(self)@.users, req.username@)
                && !old(self)@.users[username_index(old(self)@.users, req.username@)].email_verified ==> r is Err,
    {
        let user = match self.users.find_by_username(req.username.as_str()) {
            None => {
                return Err(AppError::new(ErrorKind::Unauthorized, INVALID_CREDENTIALS));
            },
            Some(u) => u,
        };
        let verdict = match check_password(req.password.as_str(), user.password_hash.as_str()) {
            Ok(b) => Some(b),
            Err(_) => None,
        };
        match credential_decision(verdict, user.email_verified) {
            Err(e) => {
                return Err(e);
            },
            Ok(_) => {},
        }
        let access_token = match generate_access_token(&user, self.jwt_secret.as_str(), now) {
            Err(e) => {
                return Err(e);
            },
            Ok(t) => t,
        };
        let copy = new_token.clone();
        let issued = self.issue_refresh_token(user.id, new_token, now);
        match issued {
            Err(e) => Err(e),
            Ok(_) => Ok(AuthResponse { access_token, refresh_token: copy, expires_in: ACCESS_TOKEN_TTL_SECS }),
        }
    }

    /// Login with a freshly drawn random refresh token. Before the user's
    /// address is verified, login fails whatever the password.
    pub fn login(&mut self, req: &LoginRequest, now: i64) -> (r: Result<AuthResponse, AppError>)
        requires
            old(self).wf(),
        ensures
            final(self).wf(),
            final(self).secret() == old(self).secret(),
            exists|new_token: String| {
                let (s1, res) = #[trigger] login_spec(old(self)@, req.username@, req.password@, new_token, now);
                &&& final(self)@ == s1
                &&& same_outcome(r, res)
                &&& r matches Ok(resp) ==> resp.refresh_token@ == new_token@
            },
            r matches Ok(resp) ==> {
                let u = old(self)@.users[username_index(old(self)@.users, req.username@)];
                &&& resp.access_token@ == access_token_for(u, old(self).secret(), now)
                &&& resp.expires_in == ACCESS_TOKEN_TTL_SECS
            },
            has_username(old(self)@.users, req.username@)
                && !old(self)@.users[username_index(old(self)@.users, req.username@)].email_verified ==> r is Err,
    {
        let token = random_uuid_text();
        let ghost t = token;
        let r = self.login_with(req, token, now);
        assert(login_spec(old(self)@, req.username@, req.password@, t, now).0 == final(self)@);
        r
    }

    /// Rotation once the replacement value is drawn (see `refresh_spec`).
    /// The presented token is gone afterwards, whatever the outcome.
    pub fn refresh_with(&mut self, presented: &str, new_token: String, now: i64) -> (r: Result<AuthResponse, AppError>)
        requires
            old(self).wf(),
        ensures
            final(self).wf(),
            final(self).secret() == old(self).secret(),
            final(self)@ == refresh_spec(old(self)@, presented@, new_token, now).0,
            same_outcome(r, refresh_spec(old(self)@, presented@, new_token, now).1),
            !has_token(final(self)@.sessions, presented@),
            ({
                let owner_rec = old(self)@.sessions[crate::ledger::token_index(old(self)@.sessions, presented@)];
                has_token(old(self)@.sessions, presented@) && owner_rec.expires_at >= now && has_id(old(self)@.users, owner_rec.user_id)
                    && new_token@ != presented@ && !has_token(old(self)@.sessions, new_token@) ==> r is Ok
            }),
            r matches Ok(resp) ==> {
                let owner = old(self)@.sessions[crate::ledger::token_index(old(self)@.sessions, presented@)].user_id;
                &&& resp.access_token@ == access_token_for(old(self)@.users[id_index(old(self)@.users, owner)], old(self).secret(), now)
                &&& resp.refresh_token@ == new_token@
                &&& resp.refresh_token@ != presented@
                &&& resp.expires_in == ACCESS_TOKEN_TTL_SECS
            },
    {
        proof {
            lemma_take_spec(self@.sessions, presented@, now);
        }
        let uid = match self.sessions.take(presented, now) {
            Err(TokenError::Invalid) => {
                return Err(AppError::new(ErrorKind::Unauthorized, INVALID_REFRESH));
            },
            Err(TokenError::Expired) => {
                return Err(AppError::new(ErrorKind::Unauthorized, REFRESH_EXPIRED));
            },
            Ok(uid) => uid,
        };
        let user = match self.users.find_by_id(uid) {
            None => {
                return Err(AppError::new(ErrorKind::Unauthorized, USER_NOT_FOUND));
            },
            Some(u) => u,
        };
        let access_token = match generate_access_token(&user, self.jwt_secret.as_str(), now) {
            Err(e) => {
                return Err(e);
            },
            Ok(t) => t,
        };
        if new_token == presented.to_owned() {
            return Err(AppError::new(ErrorKind::InternalServerError, REFRESH_STORE_FAILED));
        }
        let copy = new_token.clone();
        let ghost mid = self@.sessions;
        let issued = self.issue_refresh_token(uid, new_token, now);
        proof {
            if issued is Ok {
                let pushed = mid.push(session_record(uid, new_token, now));
                assert(pushed == final(self)@.sessions);
                if has_token(pushed, presented@) {
                    let k = choose|k: int| 0 <= k < pushed.len() && pushed[k].token@ == presented@;
                    if k < mid.len() {
                        assert(mid[k] == pushed[k]);
                    }
                }
            }
        }
        match issued {
            Err(e) => Err(e),
            Ok(_) => Ok(AuthResponse { access_token, refresh_token: copy, expires_in: ACCESS_TOKEN_TTL_SECS }),
        }
    }

    /// Rotation with a freshly drawn random replacement. The presented token
    /// is gone afterwards, whatever the outcome.
    pub fn refresh(&mut self, presented: &str, now: i64) -> (r: Result<AuthResponse, AppError>)
        requires
            old(self).wf(),
        ensures
            final(self).wf(),
            final(self).secret() == old(self).secret(),
            exists|new_token: String| {
                let (s1, res) = #[trigger] refresh_spec(old(self)@, presented@, new_token, now);
                &&& final(self)@ == s1
                &&& same_outcome(r, res)
                &&& r matches Ok(resp) ==> resp.refresh_token@ == new_token@
            },
            !has_token(final(self)@.sessions, presented@),
            r matches Ok(resp) ==> {
                let owner = old(self)@.sessions[crate::ledger::token_index(old(self)@.sessions, presented@)].user_id;
                &&& resp.access_token@ == access_token_for(old(self)@.users[id_index(old(self)@.users, owner)], old(self).secret(), now)
                &&& resp.refresh_token@ != presented@
                &&& resp.expires_in == ACCESS_TOKEN_TTL_SECS
            },
    {
        let token = random_uuid_text();
        let ghost t = token;
        let r = self.refresh_with(presented, token, now);
        assert(refresh_spec(old(self)@, presented@, t, now).0 == final(self)@);
        r
    }

    /// Sign-out: deletes the refresh token if it exists. Signing out twice,
    /// or with an unknown token, is no error.
    pub fn logout(&mut self, refresh_token: &str)
        requires
            old(self).wf(),
        ensures
            final(self).wf(),
            final(self).secret() == old(self).secret(),
            final(self)@ == logout_spec(old(self)@, refresh_token@),
            !has_token(final(self)@.sessions, refresh_token@),
    {
        proof {
            lemma_remove_spec(self@.sessions, refresh_token@);
        }
        self.sessions.remove(refresh_token);
    }

    /// Consumes a verification code (see `verify_email_spec`).
    pub fn verify_email(&mut self, code: &str, now: i64) -> (r: Result<VerifyEmailResponse, AppError>)
        requires
            old(self).wf(),
        ensures
            final(self).wf(),
            final(self).secret() == old(self).secret(),
            final(self)@ == verify_email_spec(old(self)@, code@, now).0,
            same_outcome(r, verify_email_spec(old(self)@, code@, now).1),
            !has_token(final(self)@.codes, code@),
            r matches Ok(resp) ==> resp.message@ == EMAIL_VERIFIED@,
    {
        proof {
            lemma_take_spec(self@.codes, code@, now);
        }
        match self.codes.take(code, now) {
            Err(TokenError::Invalid) => Err(AppError::new(ErrorKind::BadRequest, INVALID_CODE)),
            Err(TokenError::Expired) => Err(AppError::new(ErrorKind::BadRequest, CODE_EXPIRED)),
            Ok(uid) => {
                self.users.mark_verified(uid);
                Ok(VerifyEmailResponse { message: EMAIL_VERIFIED.to_owned() })
            },
        }
    }

    /// Resending once a code is drawn (see `resend_spec`). The reply is the
    /// same whether or not an account matched.
    pub fn resend_verification_with(&mut self, email: &str, code: String, now: i64) -> (r: Result<ResendOutcome, AppError>)
        requires
            old(self).wf(),
        ensures
            final(self).wf(),
            final(self).secret() == old(self).secret(),
            final(self)@ == resend_spec(old(self)@, email@, code, now).0,
            match resend_spec(old(self)@, email@, code, now).1 {
                Ok(None) => r matches Ok(o) && o.pending is None,
                Ok(Some(_)) => r matches Ok(o) && o.pending matches Some(p) && p.email@ == email@ && p.code@ == code@,
                Err(v) => r matches Err(e) && e@ == v,
            },
            r matches Ok(o) ==> o.response.message@ == RESEND_REPLY@,
    {
        match self.users.find_unverified_by_email(email) {
            None => Ok(ResendOutcome {
                response: VerifyEmailResponse { message: RESEND_REPLY.to_owned() },
                pending: None,
            }),
            Some(basic) => {
                let copy = code.clone();
                match self.issue_verification_code(basic.id, code, now) {
                    Err(e) => Err(e),
                    Ok(_) => Ok(ResendOutcome {
                        response: VerifyEmailResponse { message: RESEND_REPLY.to_owned() },
                        pending: Some(PendingVerification { email: basic.email, code: copy }),
                    }),
                }
            },
        }
    }

    /// Resends a verification code. Unless an unverified user has this
    /// address nothing changes; the reply is the same either way.
    pub fn resend_verification(&mut self, req: &ResendVerificationRequest, now: i64) -> (r: Result<ResendOutcome, AppError>)
        requires
            old(self).wf(),
        ensures
            final(self).wf(),
            final(self).secret() == old(self).secret(),
            r matches Ok(o) ==> o.response.message@ == RESEND_REPLY@,
            !has_unverified_email(old(self)@.users, req.email@) ==> final(self)@ == old(self)@ && (r matches Ok(o)
                && o.pending is None),
            has_unverified_email(old(self)@.users, req.email@) ==> ((r matches Err(e) && e@ == internal(CODE_STORE_FAILED))
                && final(self)@ == old(self)@) || exists|code: String| {
                &&& !has_token(old(self)@.codes, code@)
                &&& exists|n: int| CODE_MIN <= n <= CODE_MAX && code@ == code_text(n)
                &&& final(self)@ == resend_spec(old(self)@, req.email@, code, now).0
                &&& (r matches Ok(o) && o.pending matches Some(p) && p.email@ == req.email@ && p.code@ == code@)
            },
            has_unverified_email(old(self)@.users, req.email@) && old(self)@.codes.len() == 0 ==> r is Ok,
    {
        if self.users.find_unverified_by_email(req.email.as_str()).is_none() {
            return Ok(ResendOutcome {
                response: VerifyEmailResponse { message: RESEND_REPLY.to_owned() },
                pending: None,
            });
        }
        let code = match self.draw_unused_code() {
            None => return Err(AppError::new(ErrorKind::InternalServerError, CODE_STORE_FAILED)),
            Some(c) => c,
        };
        proof {
            let uid = self@.users[email_index(self@.users, req.email@)].id;
            lemma_remove_user_spec(self@.codes, uid);
        }
        self.resend_verification_with(req.email.as_str(), code, now)
    }
}

} // verus!
