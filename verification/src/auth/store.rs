//! The collaborator interfaces of the engine — credential lookup and the
//! rotation-family ledger — together with the reference in-memory adapters
//! used to exercise the protocol.

use vstd::prelude::*;

use crate::text::eq_str;

verus! {

/// A user as the engine hands it out.
#[derive(Debug, Clone)]
pub struct User {
    /// The first name of the user.
    pub fname: String,
    /// The last name of the user.
    pub lname: String,
    /// A unique email address for the user.
    pub email: String,
}

/// Mathematical model of a user.
pub ghost struct UserView {
    pub fname: Seq<char>,
    pub lname: Seq<char>,
    pub email: Seq<char>,
}

impl View for User {
    type V = UserView;

    open spec fn view(&self) -> UserView {
        UserView { fname: self.fname@, lname: self.lname@, email: self.email@ }
    }
}

/// What a credential store knows of one user: the user and the secret the
/// store compares presented passwords against.
pub ghost struct CredentialView {
    pub user: UserView,
    pub password: Seq<char>,
}

/// Whether a store holding `users` accepts this email and password.
pub open spec fn credentials_ok(
    users: Map<Seq<char>, CredentialView>,
    email: Seq<char>,
    password: Seq<char>,
) -> bool {
    users.contains_key(email) && users[email].password == password
}

/// Looks a user up by email and verifies a password. The password itself
/// never leaves the store: the engine only learns whether it matched, so a
/// hashing scheme can be substituted without touching the engine.
pub trait CredentialStore: Sized {
    /// The users the store knows, keyed by email.
    spec fn users(&self) -> Map<Seq<char>, CredentialView>;

    /// Find a user by email; `Err` is a store failure.
    fn find_user_by_email(&self, email: &str) -> (r: Result<Option<User>, String>)
        ensures
            match r {
                Ok(Some(u)) => self.users().contains_key(email@) && u@ == self.users()[email@].user
                    && u@.email == email@,
                Ok(None) => !self.users().contains_key(email@),
                Err(_) => true,
            },
    ;

    /// Whether this email and password pair is accepted.
    fn verify_password(&self, email: &str, password: &str) -> (r: Result<bool, String>)
        ensures
            match r {
                Ok(b) => b == credentials_ok(self.users(), email@, password@),
                Err(_) => true,
            },
    ;
}

/// One entry of the rotation-family ledger. Within a family — the records
/// sharing a `root_token` — the newest entry is the only one that may be
/// presented for rotation.
#[derive(Debug, Clone)]
pub struct RefreshTokenRecord {
    /// The refresh token this record stands for; the ledger's key.
    pub token: String,
    /// The user the token was minted for.
    pub user_email: String,
    /// The family's identifier: the token of the family's first record,
    /// which satisfies `root_token == token`.
    pub root_token: String,
    /// When the record was created, in unix seconds.
    pub created_at: u64,
}

/// Mathematical model of a ledger entry.
pub ghost struct RecordView {
    pub token: Seq<char>,
    pub user_email: Seq<char>,
    pub root_token: Seq<char>,
    pub created_at: u64,
}

impl View for RefreshTokenRecord {
    type V = RecordView;

    open spec fn view(&self) -> RecordView {
        RecordView {
            token: self.token@,
            user_email: self.user_email@,
            root_token: self.root_token@,
            created_at: self.created_at,
        }
    }
}

/// The first record of the ledger carrying this token, if any. Tokens act
/// as the ledger's primary key, so a well-kept ledger holds at most one.
pub open spec fn find_token(l: Seq<RecordView>, token: Seq<char>) -> Option<RecordView>
    decreases l.len(),
{
    if l.len() == 0 {
        None
    } else if l[0].token == token {
        Some(l[0])
    } else {
        find_token(l.drop_first(), token)
    }
}

/// The family of a root: every record sharing that `root_token`, oldest
/// first.
pub open spec fn family(l: Seq<RecordView>, root: Seq<char>) -> Seq<RecordView>
    decreases l.len(),
{
    if l.len() == 0 {
        Seq::empty()
    } else {
        let rest = family(l.drop_last(), root);
        if l.last().root_token == root {
            rest.push(l.last())
        } else {
            rest
        }
    }
}

/// The family's current record: the one most recently written.
pub open spec fn current_of(l: Seq<RecordView>, root: Seq<char>) -> Option<RecordView> {
    if family(l, root).len() == 0 {
        None
    } else {
        Some(family(l, root).last())
    }
}

/// The ledger with a whole family removed.
pub open spec fn purge_root(l: Seq<RecordView>, root: Seq<char>) -> Seq<RecordView>
    decreases l.len(),
{
    if l.len() == 0 {
        Seq::empty()
    } else {
        let rest = purge_root(l.drop_last(), root);
        if l.last().root_token == root {
            rest
        } else {
            rest.push(l.last())
        }
    }
}

/// The view of an optional expected token.
pub open spec fn expected_view(e: Option<&str>) -> Option<Seq<char>> {
    match e {
        Some(s) => Some(s@),
        None => None,
    }
}

/// Whether a conditional insert of `rec` may commit on ledger `l`: the
/// record's token must be fresh, and the family's current record must be
/// exactly the expected one — `None` expects a fresh family. This is the
/// per-family serialization that keeps two racing rotations from both
/// committing.
pub open spec fn cas_ok(l: Seq<RecordView>, rec: RecordView, expected: Option<Seq<char>>) -> bool {
    &&& find_token(l, rec.token) is None
    &&& match expected {
        Some(e) => match current_of(l, rec.root_token) {
            Some(c) => c.token == e,
            None => false,
        },
        None => current_of(l, rec.root_token) is None,
    }
}

/// Persists the rotation-family ledger. Records are only ever created or
/// bulk-deleted, never updated in place.
pub trait RefreshTokenStore: Sized {
    /// The ledger, in insertion order.
    spec fn ledger(&self) -> Seq<RecordView>;

    /// Find the record of a token; `Err` is a store failure.
    fn find_by_token(&self, token: &str) -> (r: Result<Option<RefreshTokenRecord>, String>)
        ensures
            match r {
                Ok(Some(rec)) => find_token(self.ledger(), token@) == Some(rec@),
                Ok(None) => find_token(self.ledger(), token@) is None,
                Err(_) => true,
            },
    ;

    /// Find the family's current record; `Err` is a store failure.
    fn find_most_recent_by_root(&self, root: &str) -> (r: Result<
        Option<RefreshTokenRecord>,
        String,
    >)
        ensures
            match r {
                Ok(Some(rec)) => current_of(self.ledger(), root@) == Some(rec@),
                Ok(None) => current_of(self.ledger(), root@) is None,
                Err(_) => true,
            },
    ;

    /// Append a record, but only if the family's current record is the
    /// expected one and the token is fresh; says whether it committed.
    /// Exactly one of two racing calls with the same expectation can
    /// commit. `Err` is a store failure and leaves the ledger unchanged.
    fn insert_if_current(&mut self, record: RefreshTokenRecord, expected: Option<&str>) -> (r:
        Result<bool, String>)
        ensures
            match r {
                Ok(b) => {
                    &&& b == cas_ok(old(self).ledger(), record@, expected_view(expected))
                    &&& if b {
                        final(self).ledger() == old(self).ledger().push(record@)
                    } else {
                        final(self).ledger() == old(self).ledger()
                    }
                },
                Err(_) => final(self).ledger() == old(self).ledger(),
            },
    ;

    /// Destroy a whole family; returns how many records were removed.
    /// `Err` is a store failure and leaves the ledger unchanged.
    fn delete_all_by_root(&mut self, root: &str) -> (r: Result<u64, String>)
        ensures
            match r {
                Ok(n) => final(self).ledger() == purge_root(old(self).ledger(), root@) && n as nat
                    == family(old(self).ledger(), root@).len(),
                Err(_) => final(self).ledger() == old(self).ledger(),
            },
    ;
}

/// What the in-memory credential store holds of one user.
pub struct CredentialRecord {
    pub user: User,
    pub password: String,
}

impl View for CredentialRecord {
    type V = CredentialView;

    open spec fn view(&self) -> CredentialView {
        CredentialView { user: self.user@, password: self.password@ }
    }
}

/// The users a row sequence describes, keyed by email; the earliest row
/// with a given email wins.
pub open spec fn creds_map(s: Seq<CredentialView>) -> Map<Seq<char>, CredentialView>
    decreases s.len(),
{
    if s.len() == 0 {
        Map::empty()
    } else {
        creds_map(s.drop_first()).insert(s[0].user.email, s[0])
    }
}

proof fn lemma_creds_map_skip(s: Seq<CredentialView>, i: int, e: Seq<char>)
    requires
        0 <= i <= s.len(),
        forall|j: int| 0 <= j < i ==> s[j].user.email != e,
    ensures
        creds_map(s).contains_key(e) == creds_map(s.skip(i)).contains_key(e),
        creds_map(s).contains_key(e) ==> creds_map(s)[e] == creds_map(s.skip(i))[e],
    decreases i,
{
    if i == 0 {
        assert(s.skip(0) =~= s);
    } else {
        assert(s.drop_first().skip(i - 1) =~= s.skip(i));
        lemma_creds_map_skip(s.drop_first(), i - 1, e);
    }
}

/// The reference in-memory credential store.
pub struct InMemoryCredentialStore {
    records: Vec<CredentialRecord>,
}

impl InMemoryCredentialStore {
    /// An empty store.
    pub fn new() -> (r: InMemoryCredentialStore)
        ensures
            r.users() == Map::<Seq<char>, CredentialView>::empty(),
    {
        InMemoryCredentialStore { records: Vec::new() }
    }

    /// Register a user with a password; an already-taken email leaves the
    /// store unchanged.
    pub fn add_user(&mut self, user: User, password: String) -> (r: bool)
        ensures
            r == !old(self).users().contains_key(user@.email),
            r ==> final(self).users() == old(self).users().insert(
                user@.email,
                CredentialView { user: user@, password: password@ },
            ),
            !r ==> final(self).users() == old(self).users(),
    {
        let ghost s = self.records@.map_values(|c: CredentialRecord| c@);
        let mut i: usize = 0;
        while i < self.records.len()
            invariant
                0 <= i <= self.records.len(),
                s == self.records@.map_values(|c: CredentialRecord| c@),
                s.len() == self.records@.len(),
                forall|j: int| 0 <= j < i ==> s[j].user.email != user@.email,
            decreases self.records.len() - i,
        {
            assert(s[i as int] == self.records@[i as int]@);
            if eq_str(self.records[i].user.email.as_str(), user.email.as_str()) {
                proof {
                    lemma_creds_map_skip(s, i as int, user@.email);
                }
                assert(creds_map(s.skip(i as int)).contains_key(user@.email));
                return false;
            }
            i = i + 1;
        }
        proof {
            lemma_creds_map_skip(s, s.len() as int, user@.email);
            assert(s.skip(s.len() as int) =~= Seq::<CredentialView>::empty());
        }
        let rec = CredentialRecord { user, password };
        let ghost recv = rec@;
        self.records.insert(0, rec);
        proof {
            let s2 = self.records@.map_values(|c: CredentialRecord| c@);
            assert(s2.drop_first() =~= s);
            assert(s2[0] == recv);
            assert(creds_map(s2) == creds_map(s).insert(recv.user.email, recv));
        }
        true
    }
}

impl CredentialStore for InMemoryCredentialStore {
    closed spec fn users(&self) -> Map<Seq<char>, CredentialView> {
        creds_map(self.records@.map_values(|c: CredentialRecord| c@))
    }

    fn find_user_by_email(&self, email: &str) -> (r: Result<Option<User>, String>) {
        let ghost s = self.records@.map_values(|c: CredentialRecord| c@);
        let mut i: usize = 0;
        while i < self.records.len()
            invariant
                0 <= i <= self.records.len(),
                s == self.records@.map_values(|c: CredentialRecord| c@),
                s.len() == self.records@.len(),
                forall|j: int| 0 <= j < i ==> s[j].user.email != email@,
            decreases self.records.len() - i,
        {
            assert(s[i as int] == self.records@[i as int]@);
            if eq_str(self.records[i].user.email.as_str(), email) {
                proof {
                    lemma_creds_map_skip(s, i as int, email@);
                }
                let rec = &self.records[i];
                let u = User {
                    fname: rec.user.fname.clone(),
                    lname: rec.user.lname.clone(),
                    email: rec.user.email.clone(),
                };
                return Ok(Some(u));
            }
            i = i + 1;
        }
        proof {
            lemma_creds_map_skip(s, s.len() as int, email@);
            assert(s.skip(s.len() as int) =~= Seq::<CredentialView>::empty());
        }
        Ok(None)
    }

    fn verify_password(&self, email: &str, password: &str) -> (r: Result<bool, String>) {
        let ghost s = self.records@.map_values(|c: CredentialRecord| c@);
        let mut i: usize = 0;
        while i < self.records.len()
            invariant
                0 <= i <= self.records.len(),
                s == self.records@.map_values(|c: CredentialRecord| c@),
                s.len() == self.records@.len(),
                forall|j: int| 0 <= j < i ==> s[j].user.email != email@,
            decreases self.records.len() - i,
        {
            assert(s[i as int] == self.records@[i as int]@);
            if eq_str(self.records[i].user.email.as_str(), email) {
                proof {
                    lemma_creds_map_skip(s, i as int, email@);
                }
                let matched = eq_str(self.records[i].password.as_str(), password);
                return Ok(matched);
            }
            i = i + 1;
        }
        proof {
            lemma_creds_map_skip(s, s.len() as int, email@);
            assert(s.skip(s.len() as int) =~= Seq::<CredentialView>::empty());
        }
        Ok(false)
    }
}

fn clone_record(rec: &RefreshTokenRecord) -> (r: RefreshTokenRecord)
    ensures
        r@ == rec@,
{
    RefreshTokenRecord {
        token: rec.token.clone(),
        user_email: rec.user_email.clone(),
        root_token: rec.root_token.clone(),
        created_at: rec.created_at,
    }
}

proof fn lemma_find_token_skip(s: Seq<RecordView>, i: int, t: Seq<char>)
    requires
        0 <= i <= s.len(),
        forall|j: int| 0 <= j < i ==> s[j].token != t,
    ensures
        find_token(s, t) == find_token(s.skip(i), t),
    decreases i,
{
    if i == 0 {
        assert(s.skip(0) =~= s);
    } else {
        assert(s.drop_first().skip(i - 1) =~= s.skip(i));
        lemma_find_token_skip(s.drop_first(), i - 1, t);
    }
}

/// The reference in-memory ledger.
pub struct InMemoryRefreshTokenStore {
    records: Vec<RefreshTokenRecord>,
}

impl InMemoryRefreshTokenStore {
    /// An empty ledger.
    pub fn new() -> (r: InMemoryRefreshTokenStore)
        ensures
            r.ledger() == Seq::<RecordView>::empty(),
    {
        let r = InMemoryRefreshTokenStore { records: Vec::new() };
        proof {
            assert(r.ledger() =~= Seq::<RecordView>::empty());
        }
        r
    }

    /// The index of the family's current record, if the family exists.
    fn current_index(&self, root: &str) -> (r: Option<usize>)
        ensures
            match r {
                Some(i) => i < self.ledger().len() && current_of(self.ledger(), root@) == Some(
                    self.ledger()[i as int],
                ),
                None => current_of(self.ledger(), root@) is None,
            },
    {
        let ghost s = self.records@.map_values(|c: RefreshTokenRecord| c@);
        let mut best: Option<usize> = None;
        let mut i: usize = 0;
        while i < self.records.len()
            invariant
                0 <= i <= self.records.len(),
                s == self.records@.map_values(|c: RefreshTokenRecord| c@),
                s.len() == self.records@.len(),
                match best {
                    Some(b) => b < i && current_of(s.take(i as int), root@) == Some(s[b as int]),
                    None => current_of(s.take(i as int), root@) is None,
                },
            decreases self.records.len() - i,
        {
            assert(s[i as int] == self.records@[i as int]@);
            proof {
                assert(s.take(i + 1).drop_last() =~= s.take(i as int));
                assert(s.take(i + 1).last() == s[i as int]);
            }
            if eq_str(self.records[i].root_token.as_str(), root) {
                best = Some(i);
            }
            i = i + 1;
        }
        proof {
            assert(s.take(s.len() as int) =~= s);
        }
        best
    }
}

impl RefreshTokenStore for InMemoryRefreshTokenStore {
    closed spec fn ledger(&self) -> Seq<RecordView> {
        self.records@.map_values(|c: RefreshTokenRecord| c@)
    }

    fn find_by_token(&self, token: &str) -> (r: Result<Option<RefreshTokenRecord>, String>) {
        let ghost s = self.records@.map_values(|c: RefreshTokenRecord| c@);
        let mut i: usize = 0;
        while i < self.records.len()
            invariant
                0 <= i <= self.records.len(),
                s == self.records@.map_values(|c: RefreshTokenRecord| c@),
                s.len() == self.records@.len(),
                forall|j: int| 0 <= j < i ==> s[j].token != token@,
            decreases self.records.len() - i,
        {
            assert(s[i as int] == self.records@[i as int]@);
            if eq_str(self.records[i].token.as_str(), token) {
                proof {
                    lemma_find_token_skip(s, i as int, token@);
                    assert(s.skip(i as int)[0] == s[i as int]);
                }
                return Ok(Some(clone_record(&self.records[i])));
            }
            i = i + 1;
        }
        proof {
            lemma_find_token_skip(s, s.len() as int, token@);
            assert(s.skip(s.len() as int) =~= Seq::<RecordView>::empty());
        }
        Ok(None)
    }

    fn find_most_recent_by_root(&self, root: &str) -> (r: Result<
        Option<RefreshTokenRecord>,
        String,
    >) {
        match self.current_index(root) {
            Some(i) => Ok(Some(clone_record(&self.records[i]))),
            None => Ok(None),
        }
    }

    fn insert_if_current(&mut self, record: RefreshTokenRecord, expected: Option<&str>) -> (r:
        Result<bool, String>) {
        let ghost s = self.records@.map_values(|c: RefreshTokenRecord| c@);
        // The token must be fresh: it is the ledger's key.
        match self.find_by_token(record.token.as_str()) {
            Ok(Some(_)) => {
                return Ok(false);
            },
            Ok(None) => {},
            Err(e) => {
                return Err(e);
            },
        }
        // The family's current record must be the expected one.
        let matches_expectation: bool = match (expected, self.current_index(record.root_token.as_str())) {
            (Some(e), Some(i)) => eq_str(e, self.records[i].token.as_str()),
            (None, None) => true,
            _ => false,
        };
        if !matches_expectation {
            return Ok(false);
        }
        let ghost recv = record@;
        self.records.push(record);
        proof {
            assert(self.records@.map_values(|c: RefreshTokenRecord| c@) =~= s.push(recv));
        }
        Ok(true)
    }

    fn delete_all_by_root(&mut self, root: &str) -> (r: Result<u64, String>) {
        let ghost s = self.records@.map_values(|c: RefreshTokenRecord| c@);
        let mut kept: Vec<RefreshTokenRecord> = Vec::new();
        let mut removed: u64 = 0;
        let mut i: usize = 0;
        proof {
            assert(kept@.map_values(|c: RefreshTokenRecord| c@) =~= Seq::<RecordView>::empty());
            assert(s.take(0) =~= Seq::<RecordView>::empty());
        }
        while i < self.records.len()
            invariant
                0 <= i <= self.records.len(),
                s == self.records@.map_values(|c: RefreshTokenRecord| c@),
                s.len() == self.records@.len(),
                removed <= i,
                kept@.map_values(|c: RefreshTokenRecord| c@) == purge_root(s.take(i as int), root@),
                removed as nat == family(s.take(i as int), root@).len(),
            decreases self.records.len() - i,
        {
            assert(s[i as int] == self.records@[i as int]@);
            proof {
                assert(s.take(i + 1).drop_last() =~= s.take(i as int));
                assert(s.take(i + 1).last() == s[i as int]);
            }
            if eq_str(self.records[i].root_token.as_str(), root) {
                removed = removed + 1;
            } else {
                let ghost kv = kept@.map_values(|c: RefreshTokenRecord| c@);
                kept.push(clone_record(&self.records[i]));
                proof {
                    assert(kept@.map_values(|c: RefreshTokenRecord| c@) =~= kv.push(s[i as int]));
                }
            }
            i = i + 1;
        }
        proof {
            assert(s.take(s.len() as int) =~= s);
        }
        self.records = kept;
        Ok(removed)
    }
}

} // verus!
