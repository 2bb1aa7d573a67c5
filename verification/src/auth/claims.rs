//! Claim sets carried inside signed tokens.

use vstd::prelude::*;
use vstd::string::StringExecFns;

verus! {

/// Type of token issued by the engine. Access tokens authorize resource
/// access only; refresh tokens authorize rotation only.
#[derive(Debug, Clone, Copy, PartialEq, Eq, Structural)]
pub enum TokenType {
    Access,
    Refresh,
}

/// A claim set as the engine sees it.
#[derive(Debug)]
pub struct Claims {
    /// The subject of the token: the user's email.
    pub sub: String,
    /// Expiry, in unix seconds. A token is expired once `exp <= now`.
    pub exp: u64,
    /// Issue time, in unix seconds.
    pub iat: u64,
    /// The type of the token.
    pub token_type: TokenType,
    /// An opaque identifier whose only purpose is to make two tokens minted
    /// in the same second differ; no store ever validates it.
    pub id: String,
}

/// Mathematical model of a claim set.
pub ghost struct ClaimsView {
    pub sub: Seq<char>,
    pub exp: u64,
    pub iat: u64,
    pub token_type: TokenType,
    pub id: Seq<char>,
}

impl View for Claims {
    type V = ClaimsView;

    open spec fn view(&self) -> ClaimsView {
        ClaimsView {
            sub: self.sub@,
            exp: self.exp,
            iat: self.iat,
            token_type: self.token_type,
            id: self.id@,
        }
    }
}

/// A claim set as it stands on the wire: the token type is the literal
/// JSON string of the `tokenType` field.
#[derive(Debug)]
pub struct RawClaims {
    pub sub: String,
    pub exp: u64,
    pub iat: u64,
    pub token_type: String,
    pub id: String,
}

/// Mathematical model of a wire-level claim set.
pub ghost struct RawClaimsView {
    pub sub: Seq<char>,
    pub exp: u64,
    pub iat: u64,
    pub token_type: Seq<char>,
    pub id: Seq<char>,
}

impl View for RawClaims {
    type V = RawClaimsView;

    open spec fn view(&self) -> RawClaimsView {
        RawClaimsView {
            sub: self.sub@,
            exp: self.exp,
            iat: self.iat,
            token_type: self.token_type@,
            id: self.id@,
        }
    }
}

/// The wire spelling of a token type.
pub open spec fn type_text(t: TokenType) -> Seq<char> {
    match t {
        TokenType::Access => "ACCESS"@,
        TokenType::Refresh => "REFRESH"@,
    }
}

/// The token type named by a wire spelling, if any.
pub open spec fn type_of_text(s: Seq<char>) -> Option<TokenType> {
    if s == "ACCESS"@ {
        Some(TokenType::Access)
    } else if s == "REFRESH"@ {
        Some(TokenType::Refresh)
    } else {
        None
    }
}

/// How a claim set is spelled on the wire.
pub open spec fn raw_of(c: ClaimsView) -> RawClaimsView {
    RawClaimsView {
        sub: c.sub,
        exp: c.exp,
        iat: c.iat,
        token_type: type_text(c.token_type),
        id: c.id,
    }
}

/// The claim set a wire-level claim set stands for, if its type field names
/// one.
pub open spec fn claims_of_raw(rc: RawClaimsView) -> Option<ClaimsView> {
    match type_of_text(rc.token_type) {
        None => None,
        Some(t) => Some(
            ClaimsView { sub: rc.sub, exp: rc.exp, iat: rc.iat, token_type: t, id: rc.id },
        ),
    }
}

/// Spelling a claim set on the wire and reading it back is the identity.
pub proof fn lemma_raw_round_trip(c: ClaimsView)
    ensures
        claims_of_raw(raw_of(c)) == Some(c),
{
    reveal_strlit("ACCESS");
    reveal_strlit("REFRESH");
    assert("ACCESS"@.len() == 6);
    assert("REFRESH"@.len() == 7);
    match c.token_type {
        TokenType::Access => {
            assert(type_of_text(type_text(c.token_type)) == Some(TokenType::Access));
        },
        TokenType::Refresh => {
            assert(type_text(c.token_type) != "ACCESS"@);
            assert(type_of_text(type_text(c.token_type)) == Some(TokenType::Refresh));
        },
    }
}

impl Claims {
    /// The wire form of this claim set.
    pub fn to_raw(&self) -> (r: RawClaims)
        ensures
            r@ == raw_of(self@),
    {
        let token_type: String = match self.token_type {
            TokenType::Access => String::from_str("ACCESS"),
            TokenType::Refresh => String::from_str("REFRESH"),
        };
        RawClaims {
            sub: self.sub.clone(),
            exp: self.exp,
            iat: self.iat,
            token_type,
            id: self.id.clone(),
        }
    }
}

} // verus!
