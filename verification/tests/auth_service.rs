use pastureen::auth::claims::{Claims, TokenType};
use pastureen::auth::codec::bearer_token;
use pastureen::auth::engine::{get_epoch, AuthApi, TokenPair};
use pastureen::auth::error::AuthApiError;
use pastureen::auth::store::{InMemoryCredentialStore, InMemoryRefreshTokenStore, User};

const SECRET: &str = "tell-nobody";

fn new_api(email: &str, password: &str) -> AuthApi<InMemoryCredentialStore, InMemoryRefreshTokenStore> {
    let mut users = InMemoryCredentialStore::new();
    let added = users.add_user(
        User {
            fname: "Test".to_string(),
            lname: "User".to_string(),
            email: email.to_string(),
        },
        password.to_string(),
    );
    assert!(added);
    AuthApi::new(SECRET.to_string(), users, InMemoryRefreshTokenStore::new())
}

fn setup_token_pair(
    api: &mut AuthApi<InMemoryCredentialStore, InMemoryRefreshTokenStore>,
    email: &str,
    password: &str,
) -> TokenPair {
    api.login(email, password).unwrap()
}

fn decode_token_helper(token: &str) -> Claims {
    Claims::from_token(token, SECRET).unwrap()
}

fn get_expired_access_token(email: &str) -> String {
    let claims = Claims {
        sub: email.to_string(),
        exp: 0,
        iat: 0,
        token_type: TokenType::Access,
        id: "expired-token-id".to_string(),
    };
    claims.encode(SECRET)
}

fn get_expired_refresh_token(email: &str) -> String {
    let claims = Claims {
        sub: email.to_string(),
        exp: 0,
        iat: 0,
        token_type: TokenType::Refresh,
        id: "expired-token-id".to_string(),
    };
    claims.encode(SECRET)
}

#[test]
fn service_login() {
    let email = "test@login.com";
    let mut api = new_api(email, "password");
    let pair = setup_token_pair(&mut api, email, "password");

    let access = decode_token_helper(&pair.access_token);
    assert_eq!(access.sub, email);
    assert_eq!(access.token_type, TokenType::Access);

    let refresh = decode_token_helper(&pair.refresh_token);
    assert_eq!(refresh.sub, email);
    assert_eq!(refresh.token_type, TokenType::Refresh);
}

#[test]
fn service_get_user() {
    let email = "test@login.com";
    let mut api = new_api(email, "password");
    let pair = setup_token_pair(&mut api, email, "password");

    let user = api.get_user(&pair.access_token).unwrap();
    assert_eq!(user.email, email);

    // Blatantly incorrect token: a refresh token is no access token.
    let incorrect = api.get_user(&pair.refresh_token);
    assert!(incorrect.is_err());
    assert!(matches!(incorrect.unwrap_err(), AuthApiError::InvalidToken));

    // Expired token.
    let expired_token = get_expired_access_token("test2@login.com");
    let expired = api.get_user(&expired_token);
    assert!(expired.is_err());
    assert!(matches!(expired.unwrap_err(), AuthApiError::InvalidToken));
}

#[test]
fn service_refresh() {
    let email = "test@login.com";
    let mut api = new_api(email, "password");
    let pair = setup_token_pair(&mut api, email, "password");

    // Incorrect refresh token: an access token is no refresh token.
    let incorrect = api.refresh(&pair.access_token);
    assert!(incorrect.is_err());
    assert!(matches!(incorrect.unwrap_err(), AuthApiError::InvalidToken));

    // Expired refresh token.
    let expired_token = get_expired_refresh_token(email);
    let expired = api.refresh(&expired_token);
    assert!(expired.is_err());
    assert!(matches!(expired.unwrap_err(), AuthApiError::InvalidToken));

    // Correct refresh token.
    let correct_res = api.refresh(&pair.refresh_token).unwrap();
    let access = decode_token_helper(&correct_res.access_token);
    assert_eq!(access.sub, email);

    // Using the old refresh token: the family is revoked.
    let res2 = api.refresh(&pair.refresh_token);
    assert!(res2.is_err());
    assert!(matches!(res2.unwrap_err(), AuthApiError::InvalidToken));

    // Using the new refresh token: it died with its family.
    let res3 = api.refresh(&correct_res.refresh_token);
    assert!(res3.is_err());
    assert!(matches!(res3.unwrap_err(), AuthApiError::InvalidToken));
}

#[test]
fn replay_detection_scenario() {
    let email = "alice@test.com";
    let mut api = new_api(email, "secret123");
    let pair0 = api.login(email, "secret123").unwrap();

    // A fresh rotation succeeds and speaks for alice.
    let pair1 = api.refresh(&pair0.refresh_token).unwrap();
    let access1 = decode_token_helper(&pair1.access_token);
    assert_eq!(access1.sub, email);
    assert_eq!(access1.token_type, TokenType::Access);

    // Replaying the retired token is rejected.
    let replay = api.refresh(&pair0.refresh_token);
    assert!(matches!(replay.unwrap_err(), AuthApiError::InvalidToken));

    // The whole family died with it, the fresh token included.
    let after = api.refresh(&pair1.refresh_token);
    assert!(matches!(after.unwrap_err(), AuthApiError::InvalidToken));

    // Access tokens live on their own expiry, independent of the family.
    let user = api.get_user(&pair1.access_token).unwrap();
    assert_eq!(user.email, email);
}

#[test]
fn family_death_is_permanent() {
    let email = "alice@test.com";
    let mut api = new_api(email, "secret123");
    let pair0 = api.login(email, "secret123").unwrap();
    let pair1 = api.refresh(&pair0.refresh_token).unwrap();
    let pair2 = api.refresh(&pair1.refresh_token).unwrap();

    // Replay of the middle token kills the family.
    assert!(matches!(
        api.refresh(&pair1.refresh_token).unwrap_err(),
        AuthApiError::InvalidToken
    ));

    // However often any of the family's tokens is resubmitted, it stays
    // dead.
    for _ in 0..3 {
        assert!(matches!(
            api.refresh(&pair0.refresh_token).unwrap_err(),
            AuthApiError::InvalidToken
        ));
        assert!(matches!(
            api.refresh(&pair1.refresh_token).unwrap_err(),
            AuthApiError::InvalidToken
        ));
        assert!(matches!(
            api.refresh(&pair2.refresh_token).unwrap_err(),
            AuthApiError::InvalidToken
        ));
    }

    // A fresh login opens a fresh family that works again.
    let fresh = api.login(email, "secret123").unwrap();
    assert!(api.refresh(&fresh.refresh_token).is_ok());
}

#[test]
fn credential_indistinguishability() {
    let mut api = new_api("known@test.com", "rightpw");

    let unknown_email = api.login("unknown@test.com", "whatever");
    let wrong_password = api.login("known@test.com", "wrongpw");

    let e1 = unknown_email.unwrap_err();
    let e2 = wrong_password.unwrap_err();
    assert!(matches!(e1, AuthApiError::InvalidCredentials));
    assert!(matches!(e2, AuthApiError::InvalidCredentials));
    assert_eq!(e1.error_type(), e2.error_type());
}

#[test]
fn token_round_trip() {
    let now = get_epoch();
    let claims = Claims {
        sub: "round@trip.com".to_string(),
        exp: now + 1000,
        iat: now,
        token_type: TokenType::Refresh,
        id: "some-id".to_string(),
    };
    let token = claims.encode(SECRET);
    let back = Claims::from_token(&token, SECRET).unwrap();
    assert_eq!(back.sub, claims.sub);
    assert_eq!(back.exp, claims.exp);
    assert_eq!(back.iat, claims.iat);
    assert_eq!(back.token_type, claims.token_type);
    assert_eq!(back.id, claims.id);
}

#[test]
fn expired_token_rejected_at_boundary() {
    // A token whose expiry equals the time of decoding already counts as
    // expired.
    let now = get_epoch();
    let claims = Claims {
        sub: "boundary@test.com".to_string(),
        exp: now,
        iat: now,
        token_type: TokenType::Access,
        id: "boundary-id".to_string(),
    };
    let token = claims.encode(SECRET);
    let res = Claims::from_token(&token, SECRET);
    assert!(matches!(res.unwrap_err(), AuthApiError::InvalidToken));
}

#[test]
fn tampered_token_rejected() {
    let now = get_epoch();
    let claims = Claims {
        sub: "tamper@test.com".to_string(),
        exp: now + 1000,
        iat: now,
        token_type: TokenType::Access,
        id: "tamper-id".to_string(),
    };
    let token = claims.encode(SECRET);

    // Wrong secret.
    assert!(Claims::from_token(&token, "a-different-secret").is_err());

    // Flipped payload byte.
    let mut bytes: Vec<char> = token.chars().collect();
    let mid = bytes.len() / 2;
    bytes[mid] = if bytes[mid] == 'A' { 'B' } else { 'A' };
    let twisted: String = bytes.into_iter().collect();
    assert!(Claims::from_token(&twisted, SECRET).is_err());

    // Garbage is no token at all.
    assert!(Claims::from_token("not.a.token", SECRET).is_err());
}

#[test]
fn fresh_tokens_differ() {
    let email = "unique@test.com";
    let mut api = new_api(email, "pw");
    let a = api.login(email, "pw").unwrap();
    let b = api.login(email, "pw").unwrap();
    assert_ne!(a.refresh_token, b.refresh_token);
    assert_ne!(a.access_token, a.refresh_token);
}

#[test]
fn error_types_are_labelled() {
    assert_eq!(
        AuthApiError::ConfigurationMissing("X".to_string()).error_type(),
        "ConfigurationError"
    );
    assert_eq!(AuthApiError::InvalidToken.error_type(), "InvalidToken");
    assert_eq!(
        AuthApiError::DatabaseError("boom".to_string()).error_type(),
        "DatabaseError"
    );
    assert_eq!(AuthApiError::InvalidCredentials.error_type(), "InvalidCredentials");
    assert_eq!(AuthApiError::EmailAlreadyExists.error_type(), "EmailAlreadyExists");
}

#[test]
fn registration_refuses_taken_email() {
    let mut users = InMemoryCredentialStore::new();
    let user = User {
        fname: "A".to_string(),
        lname: "B".to_string(),
        email: "dup@test.com".to_string(),
    };
    assert!(users.add_user(user.clone(), "one".to_string()));
    assert!(!users.add_user(user, "two".to_string()));
}

#[test]
fn bearer_headers_yield_their_token() {
    assert_eq!(bearer_token("Bearer abc.def.ghi"), Some("abc.def.ghi".to_string()));
    assert_eq!(bearer_token("Bearer "), Some(String::new()));
    assert_eq!(bearer_token("Basic xyz"), None);
    assert_eq!(bearer_token(""), None);
}
