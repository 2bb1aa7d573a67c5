//! The laws of the rotation protocol, stated over the mathematical model
//! and proved once and for all.

use vstd::prelude::*;

use crate::auth::claims::{lemma_raw_round_trip, raw_of, ClaimsView, TokenType};
use crate::auth::codec::{claims_of, decode_spec};
use crate::auth::engine::{AuthApi, TokenPair};
use crate::auth::error::AuthApiError;
use crate::auth::store::{
    credentials_ok, current_of, family, find_token, purge_root, CredentialStore, CredentialView,
    RecordView, RefreshTokenStore,
};

verus! {

/// A token that decodes to a claim set under a secret decodes, while the
/// claims are unexpired, to exactly that claim set: decoding undoes
/// encoding. Encoding yields a token whose signature check recovers the
/// signed claims, so this covers `decode(encode(c, s), s) == c` whenever
/// `c.exp > now`.
pub proof fn lemma_encode_decode_round_trip(c: ClaimsView, t: Seq<char>, s: Seq<char>, now: u64)
    requires
        claims_of(t, s) == Some(raw_of(c)),
        c.exp > now,
    ensures
        decode_spec(t, s, now) == Some(c),
{
    lemma_raw_round_trip(c);
}

/// A token whose claims have `exp <= now` is rejected, whatever else holds
/// of it; the boundary `exp == now` already counts as expired. So is any
/// token whose signature check fails.
pub proof fn lemma_expired_or_unsigned_rejected(t: Seq<char>, s: Seq<char>, now: u64)
    requires
        match claims_of(t, s) {
            Some(rc) => rc.exp <= now,
            None => true,
        },
    ensures
        decode_spec(t, s, now) is None,
{
}

/// A record the ledger finds carries the token it was found by, sits in
/// the ledger, and its family is alive.
pub proof fn lemma_found_record_has_family(l: Seq<RecordView>, t: Seq<char>)
    ensures
        match find_token(l, t) {
            Some(rec) => rec.token == t && l.contains(rec) && current_of(
                l,
                rec.root_token,
            ) is Some,
            None => true,
        },
    decreases l.len(),
{
    if l.len() > 0 {
        if l[0].token == t {
            assert(l.contains(l[0]));
            lemma_member_has_family(l, l[0]);
        } else {
            lemma_found_record_has_family(l.drop_first(), t);
            match find_token(l.drop_first(), t) {
                Some(rec) => {
                    assert(l.drop_first().contains(rec));
                    let i = choose|i: int|
                        0 <= i < l.drop_first().len() && l.drop_first()[i] == rec;
                    assert(l[i + 1] == rec);
                    assert(l.contains(rec));
                    lemma_member_has_family(l, rec);
                },
                None => {},
            }
        }
    }
}

/// Every ledger record is part of its family.
pub proof fn lemma_member_has_family(l: Seq<RecordView>, rec: RecordView)
    requires
        l.contains(rec),
    ensures
        family(l, rec.root_token).len() > 0,
    decreases l.len(),
{
    if l.len() > 0 {
        if l.last() == rec {
        } else {
            let i = choose|i: int| 0 <= i < l.len() && l[i] == rec;
            assert(l.drop_last()[i] == rec);
            assert(l.drop_last().contains(rec));
            lemma_member_has_family(l.drop_last(), rec);
        }
    }
}

/// Conversely, a family member witnesses a record of that root in the
/// ledger.
pub proof fn lemma_family_member_in_ledger(l: Seq<RecordView>, root: Seq<char>)
    ensures
        family(l, root).len() > 0 ==> exists|i: int|
            0 <= i < l.len() && #[trigger] l[i].root_token == root,
    decreases l.len(),
{
    if l.len() > 0 {
        lemma_family_member_in_ledger(l.drop_last(), root);
        if l.last().root_token == root {
            assert(l[l.len() - 1].root_token == root);
        } else if family(l.drop_last(), root).len() > 0 {
            let i = choose|i: int|
                0 <= i < l.drop_last().len() && #[trigger] l.drop_last()[i].root_token == root;
            assert(l[i].root_token == root);
        }
    }
}

/// Revoking a family leaves nothing of it: after `purge_root` the family
/// is empty, and every other family is untouched.
pub proof fn lemma_purge_root(l: Seq<RecordView>, root: Seq<char>, other: Seq<char>)
    ensures
        family(purge_root(l, root), root).len() == 0,
        other != root ==> family(purge_root(l, root), other) == family(l, other),
    decreases l.len(),
{
    if l.len() > 0 {
        lemma_purge_root(l.drop_last(), root, other);
        if l.last().root_token == root {
            assert(purge_root(l, root) == purge_root(l.drop_last(), root));
        } else {
            let p = purge_root(l.drop_last(), root);
            assert(purge_root(l, root) == p.push(l.last()));
            assert(p.push(l.last()).drop_last() =~= p);
        }
    }
}

/// Appending a record only grows its own family; every other family is
/// untouched.
pub proof fn lemma_push_family(l: Seq<RecordView>, rec: RecordView, root: Seq<char>)
    ensures
        rec.root_token == root ==> family(l.push(rec), root) == family(l, root).push(rec),
        rec.root_token != root ==> family(l.push(rec), root) == family(l, root),
{
    assert(l.push(rec).drop_last() =~= l);
    assert(l.push(rec).last() == rec);
}

/// The ledger invariant of rotation families: a family's first record is
/// its own root — `root_token == token` — so every family traces back to
/// the login that bootstrapped it.
pub open spec fn family_roots_ok(l: Seq<RecordView>) -> bool {
    forall|root: Seq<char>|
        (#[trigger] family(l, root)).len() > 0 ==> family(l, root)[0].token == root
}

/// An empty ledger trivially keeps the family invariant.
pub proof fn lemma_empty_ledger_roots_ok()
    ensures
        family_roots_ok(Seq::<RecordView>::empty()),
{
}

/// A login preserves the family invariant: it starts a new family whose
/// single record is rooted at its own token.
pub proof fn lemma_login_preserves_family_roots<C: CredentialStore, R: RefreshTokenStore>(
    pre: AuthApi<C, R>,
    post: AuthApi<C, R>,
    email: Seq<char>,
    password: Seq<char>,
    now: u64,
    r: Result<TokenPair, AuthApiError>,
)
    requires
        AuthApi::login_post(pre, post, email, password, now, r),
        family_roots_ok(pre.ledger()),
    ensures
        family_roots_ok(post.ledger()),
{
    let l = pre.ledger();
    match r {
        Ok(pair) => {
            let rec = RecordView {
                token: pair@.refresh_token,
                user_email: email,
                root_token: pair@.refresh_token,
                created_at: now,
            };
            assert forall|root: Seq<char>| (#[trigger] family(post.ledger(), root)).len() > 0
                implies family(post.ledger(), root)[0].token == root by {
                lemma_push_family(l, rec, root);
                if rec.root_token == root {
                    if family(l, root).len() > 0 {
                        assert(family(post.ledger(), root)[0] == family(l, root)[0]);
                    } else {
                        assert(family(post.ledger(), root)[0] == rec);
                    }
                }
            }
        },
        Err(_) => {},
    }
}

/// A refresh preserves the family invariant: a rotation extends a family
/// that already has its root, and a detected replay removes a family
/// whole.
pub proof fn lemma_refresh_preserves_family_roots<C: CredentialStore, R: RefreshTokenStore>(
    pre: AuthApi<C, R>,
    post: AuthApi<C, R>,
    token: Seq<char>,
    now: u64,
    r: Result<TokenPair, AuthApiError>,
)
    requires
        AuthApi::refresh_post(pre, post, token, now, r),
        family_roots_ok(pre.ledger()),
    ensures
        family_roots_ok(post.ledger()),
{
    let l = pre.ledger();
    lemma_found_record_has_family(l, token);
    match r {
        Ok(pair) => {
            let child = crate::auth::engine::child_record(l, token, pair@.refresh_token, now);
            let rec = find_token(l, token)->Some_0;
            lemma_member_has_family(l, rec);
            assert forall|root: Seq<char>| (#[trigger] family(post.ledger(), root)).len() > 0
                implies family(post.ledger(), root)[0].token == root by {
                lemma_push_family(l, child, root);
                if child.root_token == root {
                    assert(family(l, root).len() > 0);
                    assert(family(post.ledger(), root)[0] == family(l, root)[0]);
                }
            }
        },
        Err(AuthApiError::InvalidToken) => {
            match find_token(l, token) {
                Some(rec) => {
                    assert forall|root: Seq<char>|
                        (#[trigger] family(post.ledger(), root)).len() > 0 implies family(
                        post.ledger(),
                        root,
                    )[0].token == root by {
                        lemma_purge_root(l, rec.root_token, root);
                    }
                },
                None => {},
            }
        },
        Err(_) => {},
    }
}

/// Appending a record leaves every earlier token where the ledger's
/// search found it; a fresh token is found at the appended record.
pub proof fn lemma_find_token_push(l: Seq<RecordView>, x: RecordView, t: Seq<char>)
    ensures
        find_token(l.push(x), t) == match find_token(l, t) {
            Some(r) => Some(r),
            None => if x.token == t {
                Some(x)
            } else {
                None
            },
        },
    decreases l.len(),
{
    if l.len() == 0 {
        assert(l.push(x)[0] == x);
        assert(l.push(x).drop_first() =~= Seq::<RecordView>::empty());
    } else {
        assert(l.push(x)[0] == l[0]);
        assert(l.push(x).drop_first() =~= l.drop_first().push(x));
        lemma_find_token_push(l.drop_first(), x, t);
    }
}

/// Credential indistinguishability: a login with an unknown email and a
/// login with a known email but the wrong password answer with the very
/// same `InvalidCredentials` value — nothing in the result tells the two
/// apart — and neither touches the ledger. Store failures, which answer
/// `DatabaseError` regardless of the credentials, are set aside.
pub proof fn lemma_credential_indistinguishability<C: CredentialStore, R: RefreshTokenStore>(
    pre1: AuthApi<C, R>,
    post1: AuthApi<C, R>,
    unknown_email: Seq<char>,
    password1: Seq<char>,
    now1: u64,
    r1: Result<TokenPair, AuthApiError>,
    pre2: AuthApi<C, R>,
    post2: AuthApi<C, R>,
    known_email: Seq<char>,
    wrong_password: Seq<char>,
    now2: u64,
    r2: Result<TokenPair, AuthApiError>,
)
    requires
        AuthApi::login_post(pre1, post1, unknown_email, password1, now1, r1),
        AuthApi::login_post(pre2, post2, known_email, wrong_password, now2, r2),
        !pre1.users().contains_key(unknown_email),
        pre2.users().contains_key(known_email),
        pre2.users()[known_email].password != wrong_password,
        !(r1 matches Err(AuthApiError::DatabaseError(_))),
        !(r2 matches Err(AuthApiError::DatabaseError(_))),
    ensures
        r1 matches Err(AuthApiError::InvalidCredentials),
        r2 matches Err(AuthApiError::InvalidCredentials),
        post1.ledger() == pre1.ledger(),
        post2.ledger() == pre2.ledger(),
{
}

/// Family death is permanent, refresh side: once a family is gone from
/// the ledger, no refresh — whatever token it presents, however often —
/// brings a record of that family back or succeeds on one, because a
/// rotation can only extend the family of a record the ledger still
/// holds.
pub proof fn lemma_family_death_is_permanent<C: CredentialStore, R: RefreshTokenStore>(
    pre: AuthApi<C, R>,
    post: AuthApi<C, R>,
    token: Seq<char>,
    now: u64,
    r: Result<TokenPair, AuthApiError>,
    root: Seq<char>,
)
    requires
        AuthApi::refresh_post(pre, post, token, now, r),
        family(pre.ledger(), root).len() == 0,
    ensures
        family(post.ledger(), root).len() == 0,
        r is Ok ==> match find_token(pre.ledger(), token) {
            Some(rec) => rec.root_token != root,
            None => false,
        },
{
    let l = pre.ledger();
    lemma_found_record_has_family(l, token);
    match r {
        Ok(pair) => {
            let rec = find_token(l, token)->Some_0;
            lemma_member_has_family(l, rec);
            assert(rec.root_token != root);
            lemma_push_family(
                l,
                crate::auth::engine::child_record(l, token, pair@.refresh_token, now),
                root,
            );
        },
        Err(AuthApiError::InvalidToken) => {
            match find_token(l, token) {
                Some(rec) => {
                    lemma_purge_root(l, rec.root_token, root);
                },
                None => {},
            }
        },
        Err(_) => {},
    }
}

/// Family death is permanent, login side: a login starts a family rooted
/// at its own fresh refresh token, so it leaves a dead family dead — as
/// long as the newly minted token is not the very string the dead family
/// was rooted at.
pub proof fn lemma_login_leaves_dead_family_dead<C: CredentialStore, R: RefreshTokenStore>(
    pre: AuthApi<C, R>,
    post: AuthApi<C, R>,
    email: Seq<char>,
    password: Seq<char>,
    now: u64,
    r: Result<TokenPair, AuthApiError>,
    root: Seq<char>,
)
    requires
        AuthApi::login_post(pre, post, email, password, now, r),
        family(pre.ledger(), root).len() == 0,
        match r {
            Ok(pair) => pair@.refresh_token != root,
            Err(_) => true,
        },
    ensures
        family(post.ledger(), root).len() == 0,
{
    match r {
        Ok(pair) => {
            lemma_push_family(
                pre.ledger(),
                RecordView {
                    token: pair@.refresh_token,
                    user_email: email,
                    root_token: pair@.refresh_token,
                    created_at: now,
                },
                root,
            );
        },
        Err(_) => {},
    }
}

/// A successful rotation retires the presented token: afterwards the
/// ledger still remembers it, but its family's current record is the
/// freshly minted refresh token, so presenting the old token again is a
/// replay. The one proviso is that the fresh token differs from the
/// presented one.
pub proof fn lemma_rotation_retires_presented<C: CredentialStore, R: RefreshTokenStore>(
    pre: AuthApi<C, R>,
    post: AuthApi<C, R>,
    token: Seq<char>,
    now: u64,
    pair: TokenPair,
)
    requires
        AuthApi::refresh_post(pre, post, token, now, Ok(pair)),
        pair@.refresh_token != token,
    ensures
        match find_token(post.ledger(), token) {
            Some(rec) => !crate::auth::engine::current_token_is(
                post.ledger(),
                rec.root_token,
                token,
            ) && crate::auth::engine::current_token_is(
                post.ledger(),
                rec.root_token,
                pair@.refresh_token,
            ),
            None => false,
        },
{
    let l = pre.ledger();
    lemma_found_record_has_family(l, token);
    let rec = find_token(l, token)->Some_0;
    let child = crate::auth::engine::child_record(l, token, pair@.refresh_token, now);
    lemma_find_token_push(l, child, token);
    assert(find_token(post.ledger(), token) == Some(rec));
    lemma_push_family(l, child, rec.root_token);
    assert(family(post.ledger(), rec.root_token).last() == child);
}

} // verus!
