//! The engine orchestrating login, get-user and refresh.
//!
//! The engine holds no durable state of its own: all of it lives behind the
//! two store interfaces. Each public operation reads the clock once and
//! hands the reading to an `*_at` sibling that is specified, and verified,
//! for every value of the clock.

use vstd::prelude::*;
use vstd::string::StringExecFns;

use crate::auth::claims::{type_text, Claims, ClaimsView, TokenType};
use crate::auth::codec::{claims_of, decode_spec};
use crate::auth::error::AuthApiError;
use crate::auth::store::{
    credentials_ok, current_of, find_token, purge_root, CredentialStore, CredentialView,
    RecordView, RefreshTokenRecord, RefreshTokenStore, User,
};

verus! {

/// How long an access token lives, in seconds.
pub const ACCESS_TOKEN_TTL: u64 = 600;

/// How long a refresh token lives, in seconds: thirty days.
pub const REFRESH_TOKEN_TTL: u64 = 2592000;

/// The largest clock reading the engine mints tokens at; beyond it the
/// expiry would not fit in a u64.
pub const MAX_NOW: u64 = u64::MAX - REFRESH_TOKEN_TTL;

/// Relies on std::time::SystemTime::now: seconds since the unix epoch, or
/// zero should the clock stand before it. Nothing can be promised of a
/// clock reading.
#[verifier::external_body]
pub fn get_epoch() -> u64 {
    std::time::SystemTime::now()
        .duration_since(std::time::UNIX_EPOCH)
        .map(|d| d.as_secs())
        .unwrap_or(0)
}

/// Relies on uuid::Uuid::new_v4: an opaque identifier. Its only purpose is
/// uniqueness in practice; nothing can be promised of a random value.
#[verifier::external_body]
pub(crate) fn fresh_token_id() -> String {
    uuid::Uuid::new_v4().to_string()
}

/// A pair of independently valid signed tokens, returned to the caller and
/// never persisted as a pair.
#[derive(Debug)]
pub struct TokenPair {
    pub access_token: String,
    pub refresh_token: String,
}

/// Mathematical model of a token pair.
pub ghost struct TokenPairView {
    pub access_token: Seq<char>,
    pub refresh_token: Seq<char>,
}

impl View for TokenPair {
    type V = TokenPairView;

    open spec fn view(&self) -> TokenPairView {
        TokenPairView { access_token: self.access_token@, refresh_token: self.refresh_token@ }
    }
}

/// Configuration for the engine: the signing secret and the persistence
/// connection descriptor, both opaque to the core.
#[derive(Debug, Clone)]
pub struct AuthApiConfig {
    /// The secret tokens are signed with.
    pub secret: String,
    /// The connection string of the persistence engine.
    pub db_conn_str: String,
}

/// The lifetime of a token kind, in seconds.
pub open spec fn ttl_of(t: TokenType) -> u64 {
    match t {
        TokenType::Access => ACCESS_TOKEN_TTL,
        TokenType::Refresh => REFRESH_TOKEN_TTL,
    }
}

/// Whether `token` carries exactly the claims the engine mints at `now`
/// for this subject and token kind: issued now, expiring a TTL later,
/// signed with `secret`. The opaque per-token id is the one field left
/// free.
pub open spec fn minted_claims_ok(
    token: Seq<char>,
    secret: Seq<char>,
    sub: Seq<char>,
    now: u64,
    kind: TokenType,
) -> bool {
    match claims_of(token, secret) {
        Some(rc) => rc.sub == sub && rc.iat == now && rc.exp == now + ttl_of(kind)
            && rc.token_type == type_text(kind),
        None => false,
    }
}

/// Whether a pair is exactly what the engine mints for `sub` at `now`.
pub open spec fn pair_ok(p: TokenPairView, secret: Seq<char>, sub: Seq<char>, now: u64) -> bool {
    &&& minted_claims_ok(p.access_token, secret, sub, now, TokenType::Access)
    &&& minted_claims_ok(p.refresh_token, secret, sub, now, TokenType::Refresh)
}

/// Whether the family's current record carries this token.
pub open spec fn current_token_is(l: Seq<RecordView>, root: Seq<char>, token: Seq<char>) -> bool {
    match current_of(l, root) {
        Some(cur) => cur.token == token,
        None => false,
    }
}

/// Whether presenting `token` (already decoded to a refresh claim set `c`)
/// against ledger `l` rotates: the token is known to the ledger, is the
/// current record of its family, and was minted for the subject it names.
pub open spec fn rotation_applies(l: Seq<RecordView>, token: Seq<char>, c: ClaimsView) -> bool {
    &&& c.token_type == TokenType::Refresh
    &&& match find_token(l, token) {
        Some(rec) => current_token_is(l, rec.root_token, token) && rec.user_email == c.sub,
        None => false,
    }
}

/// Whether presenting `token` (decoded to a refresh claim set) is a
/// replay: the ledger knows it, but it is no longer its family's current
/// record.
pub open spec fn replay_detected(l: Seq<RecordView>, token: Seq<char>, c: ClaimsView) -> bool {
    &&& c.token_type == TokenType::Refresh
    &&& match find_token(l, token) {
        Some(rec) => !current_token_is(l, rec.root_token, token),
        None => false,
    }
}

/// The ledger after a rejected refresh: a detected replay revokes the
/// presented token's whole family; every other rejection leaves the ledger
/// untouched.
pub open spec fn ledger_after_reject(
    l: Seq<RecordView>,
    token: Seq<char>,
    d: Option<ClaimsView>,
) -> Seq<RecordView> {
    match d {
        Some(c) => if replay_detected(l, token, c) {
            match find_token(l, token) {
                Some(rec) => purge_root(l, rec.root_token),
                None => l,
            }
        } else {
            l
        },
        None => l,
    }
}

/// The child record a successful rotation appends.
pub open spec fn child_record(
    l: Seq<RecordView>,
    token: Seq<char>,
    new_refresh: Seq<char>,
    now: u64,
) -> RecordView {
    match find_token(l, token) {
        Some(rec) => RecordView {
            token: new_refresh,
            user_email: rec.user_email,
            root_token: rec.root_token,
            created_at: now,
        },
        None => RecordView { token: new_refresh, user_email: Seq::empty(), root_token: Seq::empty(), created_at: now },
    }
}

/// The main interface of the engine: it authenticates users, mints
/// short-lived access and longer-lived refresh credentials, and detects
/// and punishes reuse of a retired refresh credential.
pub struct AuthApi<C: CredentialStore, R: RefreshTokenStore> {
    secret: String,
    credentials: C,
    tokens: R,
}

impl<C: CredentialStore, R: RefreshTokenStore> AuthApi<C, R> {
    /// The signing secret.
    pub closed spec fn secret_view(&self) -> Seq<char> {
        self.secret@
    }

    /// The users the credential store knows.
    pub closed spec fn users(&self) -> Map<Seq<char>, CredentialView> {
        self.credentials.users()
    }

    /// The rotation-family ledger.
    pub closed spec fn ledger(&self) -> Seq<RecordView> {
        self.tokens.ledger()
    }

    /// Build an engine from a signing secret and its two stores.
    pub fn new(secret: String, credentials: C, tokens: R) -> (r: AuthApi<C, R>)
        ensures
            r.secret_view() == secret@,
            r.users() == credentials.users(),
            r.ledger() == tokens.ledger(),
    {
        AuthApi { secret, credentials, tokens }
    }

    /// Mint one signed token of the given kind for a subject.
    fn mint_token(&self, sub: &str, now: u64, kind: TokenType) -> (t: String)
        requires
            now <= MAX_NOW,
        ensures
            minted_claims_ok(t@, self.secret_view(), sub@, now, kind),
    {
        let ttl: u64 = match kind {
            TokenType::Access => ACCESS_TOKEN_TTL,
            TokenType::Refresh => REFRESH_TOKEN_TTL,
        };
        let claims = Claims {
            sub: String::from_str(sub),
            exp: now + ttl,
            iat: now,
            token_type: kind,
            id: fresh_token_id(),
        };
        claims.encode(self.secret.as_str())
    }

    /// What `get_user_at` promises.
    pub open spec fn get_user_post(
        self,
        token: Seq<char>,
        now: u64,
        r: Result<User, AuthApiError>,
    ) -> bool {
        let d = decode_spec(token, self.secret_view(), now);
        match r {
            Ok(u) => match d {
                Some(c) => c.token_type == TokenType::Access && self.users().contains_key(c.sub)
                    && u@ == self.users()[c.sub].user,
                None => false,
            },
            Err(AuthApiError::InvalidToken) => match d {
                Some(c) => c.token_type != TokenType::Access || !self.users().contains_key(c.sub),
                None => true,
            },
            Err(AuthApiError::DatabaseError(_)) => match d {
                Some(c) => c.token_type == TokenType::Access,
                None => false,
            },
            Err(_) => false,
        }
    }

    /// Retrieve the user a token speaks for, judging expiry against `now`.
    ///
    /// Only an unexpired, well-signed token of type Access is accepted; a
    /// validly signed token whose subject the store does not know is
    /// surfaced as `InvalidToken`, not as a not-found case.
    pub fn get_user_at(&self, token: &str, now: u64) -> (r: Result<User, AuthApiError>)
        ensures
            self.get_user_post(token@, now, r),
    {
        let claims = match Claims::from_token_at(token, self.secret.as_str(), now) {
            Ok(c) => c,
            Err(_) => {
                return Err(AuthApiError::InvalidToken);
            },
        };
        match claims.token_type {
            TokenType::Access => {},
            TokenType::Refresh => {
                return Err(AuthApiError::InvalidToken);
            },
        }
        match self.credentials.find_user_by_email(claims.sub.as_str()) {
            Ok(Some(user)) => Ok(user),
            Ok(None) => Err(AuthApiError::InvalidToken),
            Err(detail) => Err(AuthApiError::DatabaseError(detail)),
        }
    }

    /// Retrieve the user a token speaks for, against the clock's now.
    pub fn get_user(&self, token: &str) -> (r: Result<User, AuthApiError>)
        ensures
            exists|now: u64| self.get_user_post(token@, now, r),
    {
        let now = get_epoch();
        let r = self.get_user_at(token, now);
        proof {
            assert(self.get_user_post(token@, now, r));
        }
        r
    }

    /// What `login_at` promises.
    pub open spec fn login_post(
        pre: Self,
        post: Self,
        email: Seq<char>,
        password: Seq<char>,
        now: u64,
        r: Result<TokenPair, AuthApiError>,
    ) -> bool {
        &&& post.secret_view() == pre.secret_view()
        &&& post.users() == pre.users()
        &&& match r {
            Ok(pair) => {
                &&& credentials_ok(pre.users(), email, password)
                &&& pair_ok(pair@, pre.secret_view(), email, now)
                &&& post.ledger() == pre.ledger().push(
                    RecordView {
                        token: pair@.refresh_token,
                        user_email: email,
                        root_token: pair@.refresh_token,
                        created_at: now,
                    },
                )
            },
            Err(AuthApiError::InvalidCredentials) => {
                &&& !credentials_ok(pre.users(), email, password)
                &&& post.ledger() == pre.ledger()
            },
            Err(AuthApiError::DatabaseError(_)) => post.ledger() == pre.ledger(),
            Err(_) => false,
        }
    }

    /// Authenticate a user and mint a fresh token pair, bootstrapping a new
    /// rotation family whose root is the new refresh token.
    ///
    /// An unknown email and a wrong password are indistinguishable: both
    /// yield `InvalidCredentials`.
    pub fn login_at(&mut self, email: &str, password: &str, now: u64) -> (r: Result<
        TokenPair,
        AuthApiError,
    >)
        requires
            now <= MAX_NOW,
        ensures
            Self::login_post(*old(self), *final(self), email@, password@, now, r),
    {
        match self.credentials.find_user_by_email(email) {
            Ok(Some(_)) => {},
            Ok(None) => {
                return Err(AuthApiError::InvalidCredentials);
            },
            Err(detail) => {
                return Err(AuthApiError::DatabaseError(detail));
            },
        }
        match self.credentials.verify_password(email, password) {
            Ok(true) => {},
            Ok(false) => {
                return Err(AuthApiError::InvalidCredentials);
            },
            Err(detail) => {
                return Err(AuthApiError::DatabaseError(detail));
            },
        }
        let access_token = self.mint_token(email, now, TokenType::Access);
        let refresh_token = self.mint_token(email, now, TokenType::Refresh);
        let record = RefreshTokenRecord {
            token: refresh_token.clone(),
            user_email: String::from_str(email),
            root_token: refresh_token.clone(),
            created_at: now,
        };
        match self.tokens.insert_if_current(record, None) {
            Ok(true) => Ok(TokenPair { access_token, refresh_token }),
            Ok(false) => Err(
                AuthApiError::DatabaseError(String::from_str("refresh token already present")),
            ),
            Err(detail) => Err(AuthApiError::DatabaseError(detail)),
        }
    }

    /// Authenticate a user against the clock's now.
    pub fn login(&mut self, email: &str, password: &str) -> (r: Result<TokenPair, AuthApiError>)
        ensures
            exists|now: u64|
                now <= MAX_NOW && Self::login_post(
                    *old(self),
                    *final(self),
                    email@,
                    password@,
                    now,
                    r,
                ),
    {
        let mut now = get_epoch();
        if now > MAX_NOW {
            now = MAX_NOW;
        }
        let r = self.login_at(email, password, now);
        proof {
            assert(Self::login_post(*old(self), *self, email@, password@, now, r));
        }
        r
    }

    /// What `refresh_at` promises.
    pub open spec fn refresh_post(
        pre: Self,
        post: Self,
        token: Seq<char>,
        now: u64,
        r: Result<TokenPair, AuthApiError>,
    ) -> bool {
        let d = decode_spec(token, pre.secret_view(), now);
        let l = pre.ledger();
        &&& post.secret_view() == pre.secret_view()
        &&& post.users() == pre.users()
        &&& match r {
            Ok(pair) => match d {
                Some(c) => {
                    &&& rotation_applies(l, token, c)
                    &&& pair_ok(pair@, pre.secret_view(), c.sub, now)
                    &&& post.ledger() == l.push(child_record(l, token, pair@.refresh_token, now))
                },
                None => false,
            },
            Err(AuthApiError::InvalidToken) => {
                &&& post.ledger() == ledger_after_reject(l, token, d)
                &&& match d {
                    Some(c) => c.token_type != TokenType::Refresh || match find_token(l, token) {
                        Some(rec) => !current_token_is(l, rec.root_token, token)
                            || rec.user_email != c.sub || post.ledger() == l,
                        None => true,
                    },
                    None => true,
                }
            },
            Err(AuthApiError::DatabaseError(_)) => {
                &&& post.ledger() == l
                &&& match d {
                    Some(c) => c.token_type == TokenType::Refresh,
                    None => false,
                }
            },
            Err(_) => false,
        }
    }

    /// Rotate a refresh token, judging expiry against `now`.
    ///
    /// A well-signed, unexpired refresh token that is the current record of
    /// its family is retired and exchanged for a fresh pair; the presented
    /// record is retained, so presenting it ever again is detected as a
    /// replay and revokes the whole family. A losing racer — a rotation
    /// whose family moved on between check and insert — fails safe with
    /// `InvalidToken` and leaves the ledger unchanged.
    pub fn refresh_at(&mut self, refresh_token: &str, now: u64) -> (r: Result<
        TokenPair,
        AuthApiError,
    >)
        requires
            now <= MAX_NOW,
        ensures
            Self::refresh_post(*old(self), *final(self), refresh_token@, now, r),
    {
        let claims = match Claims::from_token_at(refresh_token, self.secret.as_str(), now) {
            Ok(c) => c,
            Err(_) => {
                return Err(AuthApiError::InvalidToken);
            },
        };
        match claims.token_type {
            TokenType::Refresh => {},
            TokenType::Access => {
                return Err(AuthApiError::InvalidToken);
            },
        }
        let record = match self.tokens.find_by_token(refresh_token) {
            Ok(Some(rec)) => rec,
            Ok(None) => {
                return Err(AuthApiError::InvalidToken);
            },
            Err(detail) => {
                return Err(AuthApiError::DatabaseError(detail));
            },
        };
        let current = match self.tokens.find_most_recent_by_root(record.root_token.as_str()) {
            Ok(Some(cur)) => cur,
            Ok(None) => {
                proof {
                    crate::auth::protocol::lemma_found_record_has_family(
                        old(self).ledger(),
                        refresh_token@,
                    );
                }
                return Err(AuthApiError::InvalidToken);
            },
            Err(detail) => {
                return Err(AuthApiError::DatabaseError(detail));
            },
        };
        if !crate::text::eq_str(current.token.as_str(), refresh_token) {
            // Replay: the presented token is no longer its family's current
            // record. Revoke the lineage and force re-authentication.
            match self.tokens.delete_all_by_root(record.root_token.as_str()) {
                Ok(_) => {
                    return Err(AuthApiError::InvalidToken);
                },
                Err(detail) => {
                    return Err(AuthApiError::DatabaseError(detail));
                },
            }
        }
        if !crate::text::eq_str(record.user_email.as_str(), claims.sub.as_str()) {
            // Defensive cross-check; unreachable with a correct store.
            return Err(AuthApiError::InvalidToken);
        }
        let access_token = self.mint_token(record.user_email.as_str(), now, TokenType::Access);
        let new_refresh = self.mint_token(record.user_email.as_str(), now, TokenType::Refresh);
        let child = RefreshTokenRecord {
            token: new_refresh.clone(),
            user_email: record.user_email.clone(),
            root_token: record.root_token.clone(),
            created_at: now,
        };
        match self.tokens.insert_if_current(child, Some(refresh_token)) {
            Ok(true) => Ok(TokenPair { access_token, refresh_token: new_refresh }),
            Ok(false) => Err(AuthApiError::InvalidToken),
            Err(detail) => Err(AuthApiError::DatabaseError(detail)),
        }
    }

    /// Rotate a refresh token against the clock's now.
    pub fn refresh(&mut self, refresh_token: &str) -> (r: Result<TokenPair, AuthApiError>)
        ensures
            exists|now: u64|
                now <= MAX_NOW && Self::refresh_post(
                    *old(self),
                    *final(self),
                    refresh_token@,
                    now,
                    r,
                ),
    {
        let mut now = get_epoch();
        if now > MAX_NOW {
            now = MAX_NOW;
        }
        let r = self.refresh_at(refresh_token, now);
        proof {
            assert(Self::refresh_post(*old(self), *self, refresh_token@, now, r));
        }
        r
    }
}

} // verus!
