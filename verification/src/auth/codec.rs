//! The token codec: deterministic signing of claim sets, and checking of
//! presented tokens.
//!
//! The wire format is a compact signed-claims token — three base64url
//! segments `header.payload.signature`, HMAC-SHA256 over header and payload
//! with a shared server secret. Signing and signature checking are done by
//! the `jsonwebtoken` crate behind the two trusted items below; everything
//! around them (expiry, token type, the decision taxonomy) is verified.

use vstd::prelude::*;
use vstd::string::{StringExecFns, StrSliceExecFns};

use crate::auth::claims::{
    claims_of_raw, raw_of, Claims, ClaimsView, RawClaims, RawClaimsView, TokenType,
};
use crate::auth::error::AuthApiError;
use crate::text::eq_str;

verus! {

/// The token string that signing a wire-level claim set with a secret
/// yields. Signing is deterministic: the same claims and secret give the
/// same token in every process.
pub uninterp spec fn token_of(c: RawClaimsView, secret: Seq<char>) -> Seq<char>;

/// The wire-level claim set that signature checking recovers from a token
/// under a secret: `None` when the token is malformed or its signature does
/// not match the secret. Expiry is not part of this; it is checked by
/// verified code.
pub uninterp spec fn claims_of(token: Seq<char>, secret: Seq<char>) -> Option<RawClaimsView>;

/// The MAC key a secret string derives. HMAC does not use the secret
/// bytes directly: a short secret is padded to the block size and a long
/// one is hashed first, so distinct secrets can derive the same key — a
/// secret and the same secret with trailing NULs, for instance. Rejection
/// of foreign signatures can therefore only be promised across secrets
/// whose derived keys differ.
pub uninterp spec fn hmac_key_of(secret: Seq<char>) -> Seq<u8>;

/// Relies on jsonwebtoken::encode with the default HS256 header: the token
/// is a deterministic function of the claims and the secret; decoding it
/// with the same secret recovers exactly the claims that were signed, and
/// signature checking under any secret deriving a different MAC key
/// rejects it. For an HMAC key and JSON-map claims the encode call cannot
/// fail (per its source).
#[verifier::external_body]
fn sign_claims(c: &RawClaims, secret: &str) -> (t: String)
    ensures
        t@ == token_of(c@, secret@),
        claims_of(t@, secret@) == Some(c@),
        forall|other: Seq<char>|
            hmac_key_of(other) != hmac_key_of(secret@) ==> claims_of(t@, other) is None,
{
    let mut payload = serde_json::Map::new();
    payload.insert("sub".into(), c.sub.clone().into());
    payload.insert("exp".into(), c.exp.into());
    payload.insert("iat".into(), c.iat.into());
    payload.insert("tokenType".into(), c.token_type.clone().into());
    payload.insert("id".into(), c.id.clone().into());
    let key = jsonwebtoken::EncodingKey::from_secret(secret.as_bytes());
    jsonwebtoken::encode(&jsonwebtoken::Header::default(), &payload, &key)
        .expect("HS256 signing of a JSON map cannot fail")
}

/// Relies on jsonwebtoken::decode with HS256, expiry validation switched
/// off: the call checks the signature and the token structure only, so its
/// result is a deterministic function of the token and the secret.
#[verifier::external_body]
fn check_signed(token: &str, secret: &str) -> (r: Option<RawClaims>)
    ensures
        match r {
            Some(c) => claims_of(token@, secret@) == Some(c@),
            None => claims_of(token@, secret@) is None,
        },
{
    let mut validation = jsonwebtoken::Validation::new(jsonwebtoken::Algorithm::HS256);
    validation.validate_exp = false;
    validation.required_spec_claims.clear();
    let key = jsonwebtoken::DecodingKey::from_secret(secret.as_bytes());
    let v = jsonwebtoken::decode::<serde_json::Value>(token, &key, &validation).ok()?.claims;
    Some(RawClaims {
        sub: v.get("sub")?.as_str()?.to_string(),
        exp: v.get("exp")?.as_u64()?,
        iat: v.get("iat")?.as_u64()?,
        token_type: v.get("tokenType")?.as_str()?.to_string(),
        id: v.get("id")?.as_str()?.to_string(),
    })
}

/// The token inside a bearer authorization header, if the header carries
/// one.
pub fn bearer_token(auth_header: &str) -> (r: Option<String>)
    ensures
        match r {
            Some(t) => crate::text::is_prefix("Bearer "@, auth_header@) && t@ == auth_header@.skip(
                7,
            ),
            None => !crate::text::is_prefix("Bearer "@, auth_header@),
        },
{
    if crate::text::starts_with(auth_header, "Bearer ") {
        proof {
            reveal_strlit("Bearer ");
        }
        let rest = auth_header.substring_char(7, auth_header.unicode_len());
        proof {
            assert(rest@ =~= auth_header@.skip(7));
        }
        Some(String::from_str(rest))
    } else {
        None
    }
}

/// What decoding a token under a secret at time `now` yields: the claim set
/// whose signature matches the secret and whose type field names a token
/// type, provided it is not yet expired. Expiry is strict: `exp == now`
/// already counts as expired.
pub open spec fn decode_spec(token: Seq<char>, secret: Seq<char>, now: u64) -> Option<ClaimsView> {
    match claims_of(token, secret) {
        None => None,
        Some(rc) => match claims_of_raw(rc) {
            None => None,
            Some(c) => if c.exp > now {
                Some(c)
            } else {
                None
            },
        },
    }
}

impl Claims {
    /// Encode the claims with a secret into a signed token. A secret
    /// deriving a different MAC key cannot decode it.
    pub fn encode(&self, secret: &str) -> (t: String)
        ensures
            t@ == token_of(raw_of(self@), secret@),
            claims_of(t@, secret@) == Some(raw_of(self@)),
            forall|other: Seq<char>|
                hmac_key_of(other) != hmac_key_of(secret@) ==> claims_of(t@, other) is None,
    {
        let raw = self.to_raw();
        sign_claims(&raw, secret)
    }

    /// Decode a token into a claim set, taking the time to judge expiry
    /// against as an argument. Fails with `InvalidToken` when the signature
    /// or structure is wrong or when `exp <= now`; the token type is not
    /// checked here, by design, so the same primitive serves both token
    /// kinds.
    pub fn from_token_at(token: &str, secret: &str, now: u64) -> (r: Result<Claims, AuthApiError>)
        ensures
            match r {
                Ok(c) => decode_spec(token@, secret@, now) == Some(c@),
                Err(e) => e == AuthApiError::InvalidToken && decode_spec(
                    token@,
                    secret@,
                    now,
                ) is None,
            },
    {
        let raw = match check_signed(token, secret) {
            Some(raw) => raw,
            None => {
                return Err(AuthApiError::InvalidToken);
            },
        };
        let token_type: TokenType = if eq_str(raw.token_type.as_str(), "ACCESS") {
            TokenType::Access
        } else if eq_str(raw.token_type.as_str(), "REFRESH") {
            TokenType::Refresh
        } else {
            return Err(AuthApiError::InvalidToken);
        };
        if raw.exp <= now {
            return Err(AuthApiError::InvalidToken);
        }
        let c = Claims {
            sub: raw.sub,
            exp: raw.exp,
            iat: raw.iat,
            token_type,
            id: raw.id,
        };
        Ok(c)
    }

    /// Decode a token against the clock's idea of now.
    pub fn from_token(token: &str, secret: &str) -> (r: Result<Claims, AuthApiError>)
        ensures
            match r {
                Ok(c) => exists|now: u64| decode_spec(token@, secret@, now) == Some(c@),
                Err(e) => e == AuthApiError::InvalidToken,
            },
    {
        let now = crate::auth::engine::get_epoch();
        Self::from_token_at(token, secret, now)
    }
}

} // verus!
