use vstd::prelude::*;

use crate::config::{expiry_after, REFRESH_TOKEN_TTL_SECS, VERIFICATION_TOKEN_TTL_SECS};
use crate::error::{ErrorKind, ErrorView};
use crate::ledger::{
    has_token, insert_spec, lemma_insert_spec, lemma_remove_user_spec, lemma_take_spec, lemma_token_index, take_spec,
    token_index, tokens_distinct, remove_user_spec, TokenError, TokenRecord,
};
use crate::manager::{
    code_record, issue_code_spec, login_spec, refresh_spec, register_spec, resend_spec, session_record, unauthorized,
    verify_email_spec, AuthState, INVALID_REFRESH, REFRESH_EXPIRED,
};
use crate::password::phc_parses;
use crate::store::{
    has_id, has_unverified_email, has_username, id_index, insert_user_spec, lemma_insert_user_spec,
    lemma_mark_verified_spec, username_index,
};

verus! {

/// A token stored in a ledger can be presented right away: before its
/// expiry, presenting its exact value yields its owner.
pub proof fn law_issue_then_redeem(s: Seq<TokenRecord>, rec: TokenRecord, now: i64)
    requires
        tokens_distinct(s),
        insert_spec(s, rec).1,
        now <= rec.expires_at,
    ensures
        take_spec(insert_spec(s, rec).0, rec.token@, now).1 == Ok::<i32, TokenError>(rec.user_id),
{
    lemma_insert_spec(s, rec);
    let s1 = insert_spec(s, rec).0;
    lemma_token_index(s1, rec.token@, s.len() as int);
}

/// A verification code just issued to a user verifies that user when
/// presented before it expires.
pub proof fn law_issue_code_then_verify(s: AuthState, user_id: i32, code: String, now: i64, later: i64)
    requires
        s.wf(),
        issue_code_spec(s.codes, user_id, code, now).1,
        later <= expiry_after(now, VERIFICATION_TOKEN_TTL_SECS),
    ensures
        verify_email_spec(AuthState { codes: issue_code_spec(s.codes, user_id, code, now).0, ..s }, code@, later).1
            == Ok::<i32, ErrorView>(user_id),
{
    lemma_remove_user_spec(s.codes, user_id);
    law_issue_then_redeem(remove_user_spec(s.codes, user_id), code_record(user_id, code, now), later);
}

/// A presented token whose expiry lies before `now` is refused as expired
/// and is deleted; one whose expiry is `now` or later is accepted and
/// yields its owner. Either way it is gone afterwards.
pub proof fn law_expiry_boundary(s: Seq<TokenRecord>, t: Seq<char>, now: i64)
    requires
        tokens_distinct(s),
        has_token(s, t),
    ensures
        s[token_index(s, t)].expires_at < now ==> take_spec(s, t, now).1 == Err::<i32, TokenError>(TokenError::Expired),
        s[token_index(s, t)].expires_at >= now ==> take_spec(s, t, now).1 == Ok::<i32, TokenError>(
            s[token_index(s, t)].user_id,
        ),
        !has_token(take_spec(s, t, now).0, t),
{
    lemma_take_spec(s, t, now);
}

/// At the refresh entry point: an expired refresh token is refused as
/// unauthorized with the expiry message, and removed from the ledger.
pub proof fn law_expired_refresh_refused(s: AuthState, t: Seq<char>, new_token: String, now: i64)
    requires
        s.wf(),
        has_token(s.sessions, t),
        s.sessions[token_index(s.sessions, t)].expires_at < now,
    ensures
        refresh_spec(s, t, new_token, now).1 == Err::<i32, ErrorView>(unauthorized(REFRESH_EXPIRED)),
        !has_token(refresh_spec(s, t, new_token, now).0.sessions, t),
{
    lemma_take_spec(s.sessions, t, now);
}

/// Rotation is one-shot: refreshing with a live token `t1` succeeds and
/// stores a replacement `t2` different from `t1`; presenting `t1` again is
/// refused as an invalid token, while `t2` can itself be refreshed before
/// it expires, into a replacement `t3` that differs from both and leaves
/// `t2` deleted. The replacement values are drawn at random: the law
/// assumes that neither is already held.
pub proof fn law_rotation_single_use(
    s: AuthState,
    t1: Seq<char>,
    t2: String,
    t3: String,
    now: i64,
    later: i64,
)
    requires
        s.wf(),
        has_token(s.sessions, t1),
        s.sessions[token_index(s.sessions, t1)].expires_at >= now,
        has_id(s.users, s.sessions[token_index(s.sessions, t1)].user_id),
        t2@ != t1,
        !has_token(s.sessions, t2@),
        !has_token(s.sessions, t3@),
        t3@ != t2@,
        later <= expiry_after(now, REFRESH_TOKEN_TTL_SECS),
    ensures
        ({
            let (s1, r1) = refresh_spec(s, t1, t2, now);
            &&& r1 is Ok
            &&& t2@ != t1
            &&& has_token(s1.sessions, t2@)
            &&& !has_token(s1.sessions, t1)
            &&& refresh_spec(s1, t1, t3, later).1 == Err::<i32, ErrorView>(unauthorized(INVALID_REFRESH))
            &&& refresh_spec(s1, t2@, t3, later).1 is Ok
            &&& t3@ != t1 && t3@ != t2@
            &&& !has_token(refresh_spec(s1, t2@, t3, later).0.sessions, t2@)
            &&& has_token(refresh_spec(s1, t2@, t3, later).0.sessions, t3@)
        }),
{
    let uid = s.sessions[token_index(s.sessions, t1)].user_id;
    lemma_take_spec(s.sessions, t1, now);
    let sessions1 = take_spec(s.sessions, t1, now).0;
    assert(!has_token(sessions1, t2@));
    assert(!has_token(sessions1, t3@));
    let rec = session_record(uid, t2, now);
    lemma_insert_spec(sessions1, rec);
    let sessions2 = sessions1.push(rec);
    let s1 = refresh_spec(s, t1, t2, now).0;
    assert(s1.sessions == sessions2);
    assert(s1.users == s.users);
    assert(!has_token(sessions2, t1)) by {
        if has_token(sessions2, t1) {
            let k = choose|k: int| 0 <= k < sessions2.len() && sessions2[k].token@ == t1;
            if k < sessions1.len() {
                assert(sessions1[k] == sessions2[k]);
            }
        }
    }
    assert(!has_token(sessions2, t3@)) by {
        if has_token(sessions2, t3@) {
            let k = choose|k: int| 0 <= k < sessions2.len() && sessions2[k].token@ == t3@;
            if k < sessions1.len() {
                assert(sessions1[k] == sessions2[k]);
            }
        }
    }
    lemma_token_index(sessions2, t2@, sessions1.len() as int);
    lemma_take_spec(sessions2, t2@, later);
    let sessions3 = take_spec(sessions2, t2@, later).0;
    assert(!has_token(sessions3, t3@));
    let rec3 = session_record(uid, t3, later);
    lemma_insert_spec(sessions3, rec3);
    let sessions4 = sessions3.push(rec3);
    assert(!has_token(sessions4, t2@)) by {
        if has_token(sessions4, t2@) {
            let k = choose|k: int| 0 <= k < sessions4.len() && sessions4[k].token@ == t2@;
            if k < sessions3.len() {
                assert(sessions3[k] == sessions4[k]);
            }
        }
    }
}

/// Login before the address is verified never succeeds and changes
/// nothing, whatever the password; where the stored hash is readable the
/// failure is an authorization failure.
pub proof fn law_unverified_login_refused(
    s: AuthState,
    username: Seq<char>,
    password: Seq<char>,
    new_token: String,
    now: i64,
)
    requires
        has_username(s.users, username),
        !s.users[username_index(s.users, username)].email_verified,
    ensures
        login_spec(s, username, password, new_token, now).1 is Err,
        login_spec(s, username, password, new_token, now).0 == s,
        phc_parses(s.users[username_index(s.users, username)].password_hash@) ==> login_spec(
            s,
            username,
            password,
            new_token,
            now,
        ).1->Err_0.kind == ErrorKind::Unauthorized,
{
}

/// Resending cannot be used to probe for accounts: for two addresses
/// neither of which belongs to an unverified user (say, an unknown one and
/// a verified one), the outcome is the same, a success that changes nothing.
pub proof fn law_resend_indistinguishable(s: AuthState, a: Seq<char>, b: Seq<char>, code: String, now: i64)
    requires
        !has_unverified_email(s.users, a),
        !has_unverified_email(s.users, b),
    ensures
        resend_spec(s, a, code, now) == resend_spec(s, b, code, now),
        resend_spec(s, a, code, now) == (s, Ok::<Option<i32>, ErrorView>(None)),
{
}

/// After a successful registration, the issued code verifies the new user
/// once, before it expires, and flags the user as verified; presenting the
/// same code again is refused as a bad request.
pub proof fn law_verification_code_single_use(
    s: AuthState,
    req: crate::api::RegisterRequest,
    hash: String,
    code: String,
    now: i64,
    later: i64,
    again: i64,
)
    requires
        s.wf(),
        register_spec(s, req, hash, code, now).1 is Ok,
        later <= expiry_after(now, VERIFICATION_TOKEN_TTL_SECS),
    ensures
        ({
            let (s1, r1) = register_spec(s, req, hash, code, now);
            let id = r1->Ok_0;
            let (s2, r2) = verify_email_spec(s1, code@, later);
            let (s3, r3) = verify_email_spec(s2, code@, again);
            &&& r2 == Ok::<i32, ErrorView>(id)
            &&& has_id(s2.users, id)
            &&& s2.users[id_index(s2.users, id)].email_verified
            &&& r3 is Err
            &&& r3->Err_0.kind == ErrorKind::BadRequest
        }),
{
    let (s1, r1) = register_spec(s, req, hash, code, now);
    let id = r1->Ok_0;
    lemma_insert_user_spec(s.users, s.next_id, req.username, req.email, hash, req.role);
    let (users1, next1, _) = insert_user_spec(s.users, s.next_id, req.username, req.email, hash, req.role);
    assert(s1.users == users1 && s1.next_id == next1);
    assert(users1[s.users.len() as int].id == id);
    lemma_remove_user_spec(s.codes, id);
    lemma_insert_spec(remove_user_spec(s.codes, id), code_record(id, code, now));
    assert(s1.wf());
    law_issue_code_then_verify(AuthState { codes: s.codes, ..s1 }, id, code, now, later);
    assert(AuthState { codes: issue_code_spec(s.codes, id, code, now).0, ..AuthState { codes: s.codes, ..s1 } } == s1);
    let (s2, r2) = verify_email_spec(s1, code@, later);
    lemma_take_spec(s1.codes, code@, later);
    lemma_mark_verified_spec(s1.users, s1.next_id, id);
    assert(has_id(s1.users, id));
    let i = id_index(s2.users, id);
    assert(s2.users[i].id == id);
    let j = id_index(s1.users, id);
    assert(s1.users[i].id == id);
}

} // verus!
