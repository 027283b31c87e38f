use vstd::prelude::*;

verus! {

/// The role a user acts under.
#[derive(Clone, Copy, Debug, PartialEq, Eq, Structural)]
pub enum Role {
    User,
    Coach,
    Admin,
}

pub open spec fn role_name(r: Role) -> Seq<char> {
    match r {
        Role::User => "user"@,
        Role::Coach => "coach"@,
        Role::Admin => "admin"@,
    }
}

impl Role {
    /// The lower-case name of the role, as carried in token claims.
    pub fn as_str(&self) -> (r: &'static str)
        ensures
            r@ == role_name(*self),
    {
        match self {
            Role::User => "user",
            Role::Coach => "coach",
            Role::Admin => "admin",
        }
    }
}

/// A user record.
#[derive(Debug)]
pub struct User {
    pub id: i32,
    pub username: String,
    pub email: String,
    pub password_hash: String,
    pub role: Role,
    pub email_verified: bool,
}

/// The id and address of a user, as the resend path reads them.
#[derive(Debug)]
pub struct UserBasic {
    pub id: i32,
    pub email: String,
}

impl User {
    /// A field-by-field copy.
    pub fn duplicate(&self) -> (r: User)
        ensures
            r == *self,
    {
        User {
            id: self.id,
            username: self.username.clone(),
            email: self.email.clone(),
            password_hash: self.password_hash.clone(),
            role: self.role,
            email_verified: self.email_verified,
        }
    }
}

/// Why the store refused to add a user.
#[derive(Clone, Copy, Debug, PartialEq, Eq, Structural)]
pub enum StoreError {
    DuplicateUsername,
    DuplicateEmail,
    /// No id is left to hand out.
    Exhausted,
}

pub open spec fn has_username(s: Seq<User>, name: Seq<char>) -> bool {
    exists|i: int| 0 <= i < s.len() && s[i].username@ == name
}

pub open spec fn username_index(s: Seq<User>, name: Seq<char>) -> int {
    choose|i: int| 0 <= i < s.len() && s[i].username@ == name
}

pub open spec fn has_email(s: Seq<User>, email: Seq<char>) -> bool {
    exists|i: int| 0 <= i < s.len() && s[i].email@ == email
}

pub open spec fn email_index(s: Seq<User>, email: Seq<char>) -> int {
    choose|i: int| 0 <= i < s.len() && s[i].email@ == email
}

pub open spec fn has_id(s: Seq<User>, id: i32) -> bool {
    exists|i: int| 0 <= i < s.len() && s[i].id == id
}

pub open spec fn id_index(s: Seq<User>, id: i32) -> int {
    choose|i: int| 0 <= i < s.len() && s[i].id == id
}

/// Whether a user with this address exists and has not yet verified it.
pub open spec fn has_unverified_email(s: Seq<User>, email: Seq<char>) -> bool {
    has_email(s, email) && !s[email_index(s, email)].email_verified
}

/// The store's invariant: ids lie below the next one to hand out, and ids,
/// usernames and addresses are each unique.
pub open spec fn store_wf(s: Seq<User>, next_id: int) -> bool {
    &&& 1 <= next_id <= i32::MAX
    &&& forall|i: int| 0 <= i < s.len() ==> 1 <= #[trigger] s[i].id < next_id
    &&& forall|i: int, j: int| 0 <= i < s.len() && 0 <= j < s.len() && i != j ==> s[i].id != s[j].id
    &&& forall|i: int, j: int|
        0 <= i < s.len() && 0 <= j < s.len() && i != j ==> s[i].username@ != s[j].username@
    &&& forall|i: int, j: int|
        0 <= i < s.len() && 0 <= j < s.len() && i != j ==> s[i].email@ != s[j].email@
}

/// The record a new user gets.
pub open spec fn new_user(id: i32, username: String, email: String, password_hash: String, role: Role) -> User {
    User { id, username, email, password_hash, role, email_verified: false }
}

/// Adding a user: the storage-level uniqueness constraints refuse a taken
/// username or address; otherwise the next id is handed out.
pub open spec fn insert_user_spec(
    s: Seq<User>,
    next_id: int,
    username: String,
    email: String,
    password_hash: String,
    role: Role,
) -> (Seq<User>, int, Result<i32, StoreError>) {
    if has_username(s, username@) {
        (s, next_id, Err(StoreError::DuplicateUsername))
    } else if has_email(s, email@) {
        (s, next_id, Err(StoreError::DuplicateEmail))
    } else if next_id >= i32::MAX {
        (s, next_id, Err(StoreError::Exhausted))
    } else {
        (
            s.push(new_user(next_id as i32, username, email, password_hash, role)),
            next_id + 1,
            Ok(next_id as i32),
        )
    }
}

/// The user with the given id, flagged as verified.
pub open spec fn verified_user(u: User) -> User {
    User {
        id: u.id,
        username: u.username,
        email: u.email,
        password_hash: u.password_hash,
        role: u.role,
        email_verified: true,
    }
}

pub open spec fn mark_verified_spec(s: Seq<User>, id: i32) -> Seq<User> {
    if has_id(s, id) {
        s.update(id_index(s, id), verified_user(s[id_index(s, id)]))
    } else {
        s
    }
}

pub proof fn lemma_insert_user_spec(
    s: Seq<User>,
    next_id: int,
    username: String,
    email: String,
    password_hash: String,
    role: Role,
)
    requires
        store_wf(s, next_id),
    ensures
        ({
            let (s1, n1, _) = insert_user_spec(s, next_id, username, email, password_hash, role);
            store_wf(s1, n1)
        }),
{
    if !has_username(s, username@) && !has_email(s, email@) && next_id < i32::MAX {
        let s1 = s.push(new_user(next_id as i32, username, email, password_hash, role));
        assert(s1[s.len() as int] == new_user(next_id as i32, username, email, password_hash, role));
        assert forall|i: int| 0 <= i < s.len() implies s1[i] == s[i] by {}
    }
}

pub proof fn lemma_mark_verified_spec(s: Seq<User>, next_id: int, id: i32)
    requires
        store_wf(s, next_id),
    ensures
        store_wf(mark_verified_spec(s, id), next_id),
        mark_verified_spec(s, id).len() == s.len(),
        forall|i: int| 0 <= i < s.len() ==> {
            let u = #[trigger] mark_verified_spec(s, id)[i];
            &&& u.id == s[i].id
            &&& u.username == s[i].username
            &&& u.email == s[i].email
            &&& u.password_hash == s[i].password_hash
            &&& u.role == s[i].role
            &&& u.email_verified == (s[i].email_verified || s[i].id == id)
        },
{
}

/// The users and the next id to hand out.
pub struct StoreView {
    pub users: Seq<User>,
    pub next_id: int,
}

/// The user records, with ids handed out in increasing order.
pub struct CredentialStore {
    users: Vec<User>,
    next_id: i32,
}

impl View for CredentialStore {
    type V = StoreView;

    closed spec fn view(&self) -> StoreView {
        StoreView { users: self.users@, next_id: self.next_id as int }
    }
}

impl CredentialStore {
    pub open spec fn wf(&self) -> bool {
        store_wf(self@.users, self@.next_id)
    }

    pub fn new() -> (r: CredentialStore)
        ensures
            r@.users == Seq::<User>::empty(),
            r@.next_id == 1,
            r.wf(),
    {
        CredentialStore { users: Vec::new(), next_id: 1 }
    }

    pub fn len(&self) -> (r: usize)
        ensures
            r == self@.users.len(),
    {
        self.users.len()
    }

    fn position_by_username(&self, name: &String) -> (r: Option<usize>)
        ensures
            match r {
                Some(i) => i < self@.users.len() && self@.users[i as int].username@ == name@,
                None => !has_username(self@.users, name@),
            },
    {
        let mut i: usize = 0;
        while i < self.users.len()
            invariant
                i <= self.users@.len(),
                forall|j: int| 0 <= j < i ==> self.users@[j].username@ != name@,
            decreases self.users@.len() - i,
        {
            if self.users[i].username == *name {
                return Some(i);
            }
            i = i + 1;
        }
        None
    }

    fn position_by_email(&self, email: &String) -> (r: Option<usize>)
        ensures
            match r {
                Some(i) => i < self@.users.len() && self@.users[i as int].email@ == email@,
                None => !has_email(self@.users, email@),
            },
    {
        let mut i: usize = 0;
        while i < self.users.len()
            invariant
                i <= self.users@.len(),
                forall|j: int| 0 <= j < i ==> self.users@[j].email@ != email@,
            decreases self.users@.len() - i,
        {
            if self.users[i].email == *email {
                return Some(i);
            }
            i = i + 1;
        }
        None
    }

    fn position_by_id(&self, id: i32) -> (r: Option<usize>)
        ensures
            match r {
                Some(i) => i < self@.users.len() && self@.users[i as int].id == id,
                None => !has_id(self@.users, id),
            },
    {
        let mut i: usize = 0;
        while i < self.users.len()
            invariant
                i <= self.users@.len(),
                forall|j: int| 0 <= j < i ==> self.users@[j].id != id,
            decreases self.users@.len() - i,
        {
            if self.users[i].id == id {
                return Some(i);
            }
            i = i + 1;
        }
        None
    }

    pub fn find_by_username(&self, name: &str) -> (r: Option<User>)
        requires
            self.wf(),
        ensures
            r == if has_username(self@.users, name@) {
                Some(self@.users[username_index(self@.users, name@)])
            } else {
                None::<User>
            },
    {
        let n = name.to_owned();
        match self.position_by_username(&n) {
            Some(i) => {
                assert(username_index(self@.users, name@) == i);
                Some(self.users[i].duplicate())
            },
            None => None,
        }
    }

    pub fn find_by_email(&self, email: &str) -> (r: Option<User>)
        requires
            self.wf(),
        ensures
            r == if has_email(self@.users, email@) {
                Some(self@.users[email_index(self@.users, email@)])
            } else {
                None::<User>
            },
    {
        let e = email.to_owned();
        match self.position_by_email(&e) {
            Some(i) => {
                assert(email_index(self@.users, email@) == i);
                Some(self.users[i].duplicate())
            },
            None => None,
        }
    }

    pub fn find_by_id(&self, id: i32) -> (r: Option<User>)
        requires
            self.wf(),
        ensures
            r == if has_id(self@.users, id) {
                Some(self@.users[id_index(self@.users, id)])
            } else {
                None::<User>
            },
    {
        match self.position_by_id(id) {
            Some(i) => {
                assert(id_index(self@.users, id) == i);
                Some(self.users[i].duplicate())
            },
            None => None,
        }
    }

    /// The id and address of the user with this address, if that user has
    /// not verified it yet.
    pub fn find_unverified_by_email(&self, email: &str) -> (r: Option<UserBasic>)
        requires
            self.wf(),
        ensures
            match r {
                Some(b) => has_unverified_email(self@.users, email@)
                    && b.id == self@.users[email_index(self@.users, email@)].id
                    && b.email@ == email@,
                None => !has_unverified_email(self@.users, email@),
            },
    {
        match self.find_by_email(email) {
            Some(u) => {
                if u.email_verified {
                    None
                } else {
                    Some(UserBasic { id: u.id, email: u.email })
                }
            },
            None => None,
        }
    }

    /// Adds a user that has not verified its address (see `insert_user_spec`).
    pub fn insert(&mut self, username: String, email: String, password_hash: String, role: Role) -> (r: Result<i32, StoreError>)
        requires
            old(self).wf(),
        ensures
            ({
                let (s1, n1, res) = insert_user_spec(
                    old(self)@.users,
                    old(self)@.next_id,
                    username,
                    email,
                    password_hash,
                    role,
                );
                final(self)@.users == s1 && final(self)@.next_id == n1 && r == res
            }),
            final(self).wf(),
    {
        proof {
            lemma_insert_user_spec(self@.users, self@.next_id, username, email, password_hash, role);
        }
        if self.position_by_username(&username).is_some() {
            return Err(StoreError::DuplicateUsername);
        }
        if self.position_by_email(&email).is_some() {
            return Err(StoreError::DuplicateEmail);
        }
        if self.next_id == i32::MAX {
            return Err(StoreError::Exhausted);
        }
        let id = self.next_id;
        self.users.push(User { id, username, email, password_hash, role, email_verified: false });
        self.next_id = id + 1;
        Ok(id)
    }

    /// Flags the user with this id as verified; no user, no change.
    pub fn mark_verified(&mut self, id: i32)
        requires
            old(self).wf(),
        ensures
            final(self)@.users == mark_verified_spec(old(self)@.users, id),
            final(self)@.next_id == old(self)@.next_id,
            final(self).wf(),
    {
        proof {
            lemma_mark_verified_spec(self@.users, self@.next_id, id);
        }
        match self.position_by_id(id) {
            Some(i) => {
                assert(id_index(self@.users, id) == i);
                self.users[i].email_verified = true;
                assert(self@.users =~= mark_verified_spec(old(self)@.users, id));
            },
            None => {},
        }
    }
}

} // verus!
