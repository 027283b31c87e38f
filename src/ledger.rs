use vstd::prelude::*;

verus! {

/// One issued token: its owner, its value, and the instant after which it
/// counts as expired.
#[derive(Debug)]
pub struct TokenRecord {
    pub user_id: i32,
    pub token: String,
    pub expires_at: i64,
}

/// A refresh token as the session ledger stores it.
pub type RefreshToken = TokenRecord;

/// Why presenting a token failed.
#[derive(Clone, Copy, Debug, PartialEq, Eq, Structural)]
pub enum TokenError {
    /// No record holds the presented value.
    Invalid,
    /// The record existed but its expiry had passed; it has been deleted.
    Expired,
}

pub open spec fn has_token(s: Seq<TokenRecord>, t: Seq<char>) -> bool {
    exists|i: int| 0 <= i < s.len() && s[i].token@ == t
}

pub open spec fn token_index(s: Seq<TokenRecord>, t: Seq<char>) -> int {
    choose|i: int| 0 <= i < s.len() && s[i].token@ == t
}

pub open spec fn has_user(s: Seq<TokenRecord>, user_id: i32) -> bool {
    exists|i: int| 0 <= i < s.len() && s[i].user_id == user_id
}

pub open spec fn user_index(s: Seq<TokenRecord>, user_id: i32) -> int {
    choose|i: int| 0 <= i < s.len() && s[i].user_id == user_id
}

/// No token value is held by two records.
pub open spec fn tokens_distinct(s: Seq<TokenRecord>) -> bool {
    forall|i: int, j: int|
        0 <= i < s.len() && 0 <= j < s.len() && i != j ==> s[i].token@ != s[j].token@
}

/// No user owns two records.
pub open spec fn one_per_user(s: Seq<TokenRecord>) -> bool {
    forall|i: int, j: int|
        0 <= i < s.len() && 0 <= j < s.len() && i != j ==> s[i].user_id != s[j].user_id
}

/// Presenting token `t` at time `now`: an unknown value fails as invalid;
/// a known one is deleted, and fails as expired if its expiry lies before
/// `now`, else yields its owner.
pub open spec fn take_spec(s: Seq<TokenRecord>, t: Seq<char>, now: i64) -> (Seq<TokenRecord>, Result<i32, TokenError>) {
    if !has_token(s, t) {
        (s, Err(TokenError::Invalid))
    } else {
        let i = token_index(s, t);
        if s[i].expires_at < now {
            (s.remove(i), Err(TokenError::Expired))
        } else {
            (s.remove(i), Ok(s[i].user_id))
        }
    }
}

/// Storing a record, refused when its value is already held.
pub open spec fn insert_spec(s: Seq<TokenRecord>, rec: TokenRecord) -> (Seq<TokenRecord>, bool) {
    if has_token(s, rec.token@) {
        (s, false)
    } else {
        (s.push(rec), true)
    }
}

/// Deleting the record that holds `t`, if any.
pub open spec fn remove_spec(s: Seq<TokenRecord>, t: Seq<char>) -> Seq<TokenRecord> {
    if has_token(s, t) {
        s.remove(token_index(s, t))
    } else {
        s
    }
}

/// Deleting the record owned by `user_id`, if any.
pub open spec fn remove_user_spec(s: Seq<TokenRecord>, user_id: i32) -> Seq<TokenRecord> {
    if has_user(s, user_id) {
        s.remove(user_index(s, user_id))
    } else {
        s
    }
}

pub proof fn lemma_token_index(s: Seq<TokenRecord>, t: Seq<char>, i: int)
    requires
        tokens_distinct(s),
        0 <= i < s.len(),
        s[i].token@ == t,
    ensures
        has_token(s, t),
        token_index(s, t) == i,
{
}

pub proof fn lemma_user_index(s: Seq<TokenRecord>, user_id: i32, i: int)
    requires
        one_per_user(s),
        0 <= i < s.len(),
        s[i].user_id == user_id,
    ensures
        has_user(s, user_id),
        user_index(s, user_id) == i,
{
}

/// Removing one record keeps both uniqueness properties, and the removed
/// value is then held by no record.
pub proof fn lemma_remove_at(s: Seq<TokenRecord>, i: int)
    requires
        0 <= i < s.len(),
    ensures
        tokens_distinct(s) ==> tokens_distinct(s.remove(i)),
        tokens_distinct(s) ==> !has_token(s.remove(i), s[i].token@),
        one_per_user(s) ==> one_per_user(s.remove(i)),
        one_per_user(s) ==> !has_user(s.remove(i), s[i].user_id),
        forall|t: Seq<char>| #[trigger] has_token(s.remove(i), t) ==> has_token(s, t),
{
    let r = s.remove(i);
    assert forall|k: int| 0 <= k < r.len() implies r[k] == s[if k < i { k } else { k + 1 }] by {}
    assert forall|t: Seq<char>| #[trigger] has_token(r, t) implies has_token(s, t) by {
        let k = choose|k: int| 0 <= k < r.len() && r[k].token@ == t;
        let m = if k < i { k } else { k + 1 };
        assert(s[m].token@ == t);
    }
}

pub proof fn lemma_take_spec(s: Seq<TokenRecord>, t: Seq<char>, now: i64)
    requires
        tokens_distinct(s),
    ensures
        tokens_distinct(take_spec(s, t, now).0),
        one_per_user(s) ==> one_per_user(take_spec(s, t, now).0),
        !has_token(take_spec(s, t, now).0, t),
        forall|u: Seq<char>| #[trigger] has_token(take_spec(s, t, now).0, u) ==> has_token(s, u),
{
    if has_token(s, t) {
        let i = token_index(s, t);
        lemma_remove_at(s, i);
    }
}

pub proof fn lemma_remove_spec(s: Seq<TokenRecord>, t: Seq<char>)
    requires
        tokens_distinct(s),
    ensures
        tokens_distinct(remove_spec(s, t)),
        !has_token(remove_spec(s, t), t),
{
    if has_token(s, t) {
        lemma_remove_at(s, token_index(s, t));
    }
}

pub proof fn lemma_remove_user_spec(s: Seq<TokenRecord>, user_id: i32)
    requires
        tokens_distinct(s),
        one_per_user(s),
    ensures
        tokens_distinct(remove_user_spec(s, user_id)),
        one_per_user(remove_user_spec(s, user_id)),
        !has_user(remove_user_spec(s, user_id), user_id),
        forall|u: Seq<char>| #[trigger] has_token(remove_user_spec(s, user_id), u) ==> has_token(s, u),
{
    if has_user(s, user_id) {
        lemma_remove_at(s, user_index(s, user_id));
    }
}

pub proof fn lemma_insert_spec(s: Seq<TokenRecord>, rec: TokenRecord)
    requires
        tokens_distinct(s),
    ensures
        tokens_distinct(insert_spec(s, rec).0),
        !has_user(s, rec.user_id) && one_per_user(s) ==> one_per_user(insert_spec(s, rec).0),
        insert_spec(s, rec).1 ==> has_token(insert_spec(s, rec).0, rec.token@),
{
    if !has_token(s, rec.token@) {
        let r = s.push(rec);
        assert(r[s.len() as int] == rec);
    }
}

/// A set of issued tokens, each value held at most once.
pub struct TokenLedger {
    records: Vec<TokenRecord>,
}

impl View for TokenLedger {
    type V = Seq<TokenRecord>;

    closed spec fn view(&self) -> Seq<TokenRecord> {
        self.records@
    }
}

impl TokenLedger {
    pub fn new() -> (r: TokenLedger)
        ensures
            r@ == Seq::<TokenRecord>::empty(),
    {
        TokenLedger { records: Vec::new() }
    }

    pub fn len(&self) -> (r: usize)
        ensures
            r == self@.len(),
    {
        self.records.len()
    }

    fn position(&self, token: &String) -> (r: Option<usize>)
        ensures
            match r {
                Some(i) => i < self@.len() && self@[i as int].token@ == token@,
                None => !has_token(self@, token@),
            },
    {
        let mut i: usize = 0;
        while i < self.records.len()
            invariant
                i <= self.records@.len(),
                forall|j: int| 0 <= j < i ==> self.records@[j].token@ != token@,
            decreases self.records@.len() - i,
        {
            if self.records[i].token == *token {
                return Some(i);
            }
            i = i + 1;
        }
        None
    }

    fn position_of_user(&self, user_id: i32) -> (r: Option<usize>)
        ensures
            match r {
                Some(i) => i < self@.len() && self@[i as int].user_id == user_id,
                None => !has_user(self@, user_id),
            },
    {
        let mut i: usize = 0;
        while i < self.records.len()
            invariant
                i <= self.records@.len(),
                forall|j: int| 0 <= j < i ==> self.records@[j].user_id != user_id,
            decreases self.records@.len() - i,
        {
            if self.records[i].user_id == user_id {
                return Some(i);
            }
            i = i + 1;
        }
        None
    }

    /// Whether some record holds `token`.
    pub fn contains(&self, token: &str) -> (r: bool)
        ensures
            r == has_token(self@, token@),
    {
        let t = token.to_owned();
        self.position(&t).is_some()
    }

    /// The expiry of the record that holds `token`.
    pub fn expiry_of(&self, token: &str) -> (r: Option<i64>)
        requires
            tokens_distinct(self@),
        ensures
            r == if has_token(self@, token@) {
                Some(self@[token_index(self@, token@)].expires_at)
            } else {
                None::<i64>
            },
    {
        let t = token.to_owned();
        match self.position(&t) {
            Some(i) => {
                proof {
                    lemma_token_index(self@, token@, i as int);
                }
                Some(self.records[i].expires_at)
            },
            None => None,
        }
    }

    /// Stores `rec` unless its value is already held; says whether it did.
    pub fn insert(&mut self, rec: TokenRecord) -> (r: bool)
        ensures
            (final(self)@, r) == insert_spec(old(self)@, rec),
    {
        match self.position(&rec.token) {
            Some(_) => false,
            None => {
                self.records.push(rec);
                true
            },
        }
    }

    /// Presents `token` at time `now` (see `take_spec`).
    pub fn take(&mut self, token: &str, now: i64) -> (r: Result<i32, TokenError>)
        requires
            tokens_distinct(old(self)@),
        ensures
            (final(self)@, r) == take_spec(old(self)@, token@, now),
    {
        let t = token.to_owned();
        match self.position(&t) {
            None => Err(TokenError::Invalid),
            Some(i) => {
                proof {
                    lemma_token_index(self@, token@, i as int);
                }
                let rec = self.records.remove(i);
                if rec.expires_at < now {
                    Err(TokenError::Expired)
                } else {
                    Ok(rec.user_id)
                }
            },
        }
    }

    /// Deletes the record that holds `token`, if there is one.
    pub fn remove(&mut self, token: &str)
        requires
            tokens_distinct(old(self)@),
        ensures
            final(self)@ == remove_spec(old(self)@, token@),
    {
        let t = token.to_owned();
        match self.position(&t) {
            None => {},
            Some(i) => {
                proof {
                    lemma_token_index(self@, token@, i as int);
                }
                self.records.remove(i);
            },
        }
    }

    /// Deletes the record owned by `user_id`, if there is one.
    pub fn remove_user(&mut self, user_id: i32)
        requires
            one_per_user(old(self)@),
        ensures
            final(self)@ == remove_user_spec(old(self)@, user_id),
    {
        match self.position_of_user(user_id) {
            None => {},
            Some(i) => {
                proof {
                    lemma_user_index(self@, user_id, i as int);
                }
                self.records.remove(i);
            },
        }
    }
}

} // verus!
