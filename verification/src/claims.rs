//! The claims that a bearer token carries: who the bearer is, what the
//! bearer may do, and until when the token holds.

use vstd::prelude::*;
use vstd::string::*;
use crate::clock::unix_now;
use crate::errors::AuthError;
use crate::ids::{parse_public_id, uuid_of_text};
use crate::keys::Keys;
use crate::token::{jwt_decode, jwt_encode, signed_token, token_claims, RawClaims};

verus! {

/// Lifetime of a token, in seconds: one day.
pub const TOKEN_TTL_SECONDS: i64 = 86400;

/// Name of the claim that holds the bearer's name.
pub const CLAIM_USERNAME: &'static str = "username";

/// Name of the claim that holds the bearer's public identifier.
pub const CLAIM_USER_PUBLIC_ID: &'static str = "user_public_id";

/// Name of the claim that holds the bearer's permission string.
pub const CLAIM_PERMISSIONS_BITWISE: &'static str = "permissions_bitwise";

/// Name of the claim that holds the expiry time.
pub const CLAIM_EXP: &'static str = "exp";

/// The payload of a bearer token. The identifier is the value of the
/// bearer's UUID; the expiry is in seconds since the Unix epoch.
#[derive(Debug, Clone, PartialEq, Eq)]
pub struct Claims {
    pub username: String,
    pub user_public_id: u128,
    pub permissions_bitwise: String,
    pub exp: u64,
}

/// What a `Claims` value says.
pub ghost struct ClaimsView {
    pub username: Seq<char>,
    pub user_public_id: u128,
    pub permissions_bitwise: Seq<char>,
    pub exp: u64,
}

impl View for Claims {
    type V = ClaimsView;

    open spec fn view(&self) -> ClaimsView {
        ClaimsView {
            username: self.username@,
            user_public_id: self.user_public_id,
            permissions_bitwise: self.permissions_bitwise@,
            exp: self.exp,
        }
    }
}

/// The body of a successful login.
#[derive(Debug, Clone, PartialEq, Eq)]
pub struct AuthBodyDto {
    pub access_token: String,
    pub token_type: String,
}

impl AuthBodyDto {
    /// The body for a token: the token itself, of type `Bearer`.
    pub fn new(access_token: String) -> (r: Self)
        ensures
            r.access_token@ == access_token@,
            r.token_type@ == "Bearer"@,
    {
        Self { access_token, token_type: String::from_str("Bearer") }
    }
}

/// The expiry of a token issued at `now`: one lifetime later. A time before
/// the epoch counts as the epoch.
pub open spec fn spec_expiry(now: i64) -> u64 {
    if now + TOKEN_TTL_SECONDS < 0 {
        0
    } else {
        (now + TOKEN_TTL_SECONDS) as u64
    }
}

/// What `Claims::from_raw` makes of the four claims as a token held them.
pub open spec fn spec_claims_of(
    username: Option<Seq<char>>,
    user_public_id: Option<Seq<char>>,
    permissions_bitwise: Option<Seq<char>>,
    exp: Option<u64>,
) -> Option<ClaimsView> {
    if username is Some && user_public_id is Some && permissions_bitwise is Some && exp is Some
        && uuid_of_text(user_public_id->0) is Some {
        Some(
            ClaimsView {
                username: username->0,
                user_public_id: uuid_of_text(user_public_id->0)->0,
                permissions_bitwise: permissions_bitwise->0,
                exp: exp->0,
            },
        )
    } else {
        None
    }
}

impl Claims {
    /// Claims of nobody: no name, the nil identifier, no permission string,
    /// expired at the epoch.
    pub fn new() -> (r: Self)
        ensures
            r.username@.len() == 0,
            r.user_public_id == 0,
            r.permissions_bitwise@.len() == 0,
            r.exp == 0,
    {
        Claims {
            username: String::new(),
            user_public_id: 0,
            permissions_bitwise: String::new(),
            exp: 0,
        }
    }

    /// The expiry of a token issued at `now`.
    pub fn expiry_after(now: i64) -> (r: u64)
        ensures
            r == spec_expiry(now),
    {
        if now < -TOKEN_TTL_SECONDS {
            0
        } else if now < 0 {
            (now + TOKEN_TTL_SECONDS) as u64
        } else {
            now as u64 + TOKEN_TTL_SECONDS as u64
        }
    }

    /// The claims of a login at `now`.
    pub fn issue(username: String, user_public_id: u128, permissions_bitwise: String, now: i64) -> (r:
        Self)
        ensures
            r.username@ == username@,
            r.user_public_id == user_public_id,
            r.permissions_bitwise@ == permissions_bitwise@,
            r.exp == spec_expiry(now),
    {
        Claims { username, user_public_id, permissions_bitwise, exp: Claims::expiry_after(now) }
    }

    /// Claims from the four claims as a token held them: all four must be
    /// there, and the identifier must read as one.
    pub fn from_raw(raw: RawClaims) -> (r: Option<Self>)
        ensures
            match r {
                Some(claims) => Some(claims@) == spec_claims_of(
                    raw.spec_username(),
                    raw.spec_user_public_id(),
                    raw.spec_permissions_bitwise(),
                    raw.exp,
                ),
                None => spec_claims_of(
                    raw.spec_username(),
                    raw.spec_user_public_id(),
                    raw.spec_permissions_bitwise(),
                    raw.exp,
                ) is None,
            },
    {
        let RawClaims { username, user_public_id, permissions_bitwise, exp } = raw;
        match (username, user_public_id, permissions_bitwise, exp) {
            (Some(username), Some(id_text), Some(permissions_bitwise), Some(exp)) => {
                match parse_public_id(id_text.as_str()) {
                    Some(user_public_id) => Some(
                        Claims { username, user_public_id, permissions_bitwise, exp },
                    ),
                    None => None,
                }
            },
            _ => None,
        }
    }

    /// The outcome of checking a token, from what the check gave: claims
    /// where the token held and its claims are complete, and `InvalidToken`
    /// for everything else, whatever the reason.
    pub fn from_decoded(decoded: Result<RawClaims, jsonwebtoken::errors::Error>) -> (r: Result<
        Self,
        AuthError,
    >)
        ensures
            match r {
                Ok(claims) => decoded matches Ok(raw) && Some(claims@) == spec_claims_of(
                    raw.spec_username(),
                    raw.spec_user_public_id(),
                    raw.spec_permissions_bitwise(),
                    raw.exp,
                ),
                Err(e) => e == AuthError::InvalidToken && (decoded matches Ok(raw) ==> spec_claims_of(
                    raw.spec_username(),
                    raw.spec_user_public_id(),
                    raw.spec_permissions_bitwise(),
                    raw.exp,
                ) is None),
            },
    {
        match decoded {
            Ok(raw) => match Claims::from_raw(raw) {
                Some(claims) => Ok(claims),
                None => Err(AuthError::InvalidToken),
            },
            Err(_) => Err(AuthError::InvalidToken),
        }
    }

    /// The claims if they have not expired at `now`: a token whose expiry
    /// lies before `now` is invalid, and there is no leeway.
    pub fn not_expired(self, now: i64) -> (r: Result<Self, AuthError>)
        ensures
            r == if spec_holds_at(self.exp, now) {
                Ok::<Claims, AuthError>(self)
            } else {
                Err::<Claims, AuthError>(AuthError::InvalidToken)
            },
    {
        if now > 0 && self.exp < now as u64 {
            Err(AuthError::InvalidToken)
        } else {
            Ok(self)
        }
    }

    /// Checks a token with `keys` and against the time `now`, and reads its
    /// claims. The token must hold under the keys, carry all four claims,
    /// and not have expired at `now`; the claims are then the ones that the
    /// token carries. A token that holds at no time, lacks a claim or has
    /// expired at `now` is refused. Every failure is `InvalidToken`,
    /// whatever was wrong.
    pub fn from_token_at(token: &str, keys: &Keys, now: i64) -> (r: Result<Self, AuthError>)
        ensures
            match r {
                Ok(claims) => Some(claims@) == spec_claims_in(token@, keys@) && spec_holds_at(
                    claims.exp,
                    now,
                ),
                Err(e) => e == AuthError::InvalidToken,
            },
            spec_refused_at(token@, keys@, now) ==> r is Err,
    {
        let decoded = jwt_decode(token, keys.secret.as_slice());
        match Claims::from_decoded(decoded) {
            Ok(claims) => claims.not_expired(now),
            Err(e) => Err(e),
        }
    }

    /// Checks a token with `keys` and against the clock, and reads its
    /// claims: `from_token_at` for the time that the clock shows.
    pub fn from_token(token: &str, keys: &Keys) -> (r: Result<Self, AuthError>)
        ensures
            match r {
                Ok(claims) => Some(claims@) == spec_claims_in(token@, keys@) && exists|now: i64|
                    now >= 0 && #[trigger] spec_holds_at(claims.exp, now),
                Err(e) => e == AuthError::InvalidToken,
            },
    {
        let now = unix_now();
        let checked = Claims::from_token_at(token, keys, now);
        proof {
            if checked is Ok {
                assert(spec_holds_at(checked->Ok_0.exp, now));
            }
        }
        checked
    }

    /// The claims of a request at the time `now`, from the bearer token of
    /// its authorization header, if it has one. A request without a token
    /// is refused like one with a bad or an expired token.
    pub fn from_bearer_at(bearer: Option<&str>, keys: &Keys, now: i64) -> (r: Result<
        Self,
        AuthError,
    >)
        ensures
            match r {
                Ok(claims) => bearer matches Some(token) && Some(claims@) == spec_claims_in(
                    token@,
                    keys@,
                ) && spec_holds_at(claims.exp, now),
                Err(e) => e == AuthError::InvalidToken,
            },
            bearer matches Some(token) ==> (spec_refused_at(token@, keys@, now) ==> r is Err),
    {
        match bearer {
            Some(token) => Claims::from_token_at(token, keys, now),
            None => Err(AuthError::InvalidToken),
        }
    }

    /// The claims of a request, from the bearer token of its authorization
    /// header, if it has one: `from_bearer_at` for the time that the clock
    /// shows.
    pub fn from_bearer(bearer: Option<&str>, keys: &Keys) -> (r: Result<Self, AuthError>)
        ensures
            match r {
                Ok(claims) => bearer matches Some(token) && Some(claims@) == spec_claims_in(
                    token@,
                    keys@,
                ) && exists|now: i64| now >= 0 && #[trigger] spec_holds_at(claims.exp, now),
                Err(e) => e == AuthError::InvalidToken,
            },
    {
        let now = unix_now();
        let checked = Claims::from_bearer_at(bearer, keys, now);
        proof {
            if checked is Ok {
                assert(spec_holds_at(checked->Ok_0.exp, now));
            }
        }
        checked
    }

    /// Signs the claims with `keys`. The token is the one that the claims and
    /// the secret determine. Signing with a secret does not fail, so the
    /// answer is always a token.
    pub fn sign(&self, keys: &Keys) -> (r: Result<AuthBodyDto, AuthError>)
        ensures
            r matches Ok(body) && body.access_token@ == signed_token(
                self.username@,
                self.user_public_id,
                self.permissions_bitwise@,
                self.exp,
                keys@,
            ) && body.token_type@ == "Bearer"@,
    {
        match jwt_encode(self, keys.secret.as_slice()) {
            Ok(token) => Ok(AuthBodyDto::new(token)),
            Err(_) => Err(AuthError::TokenCreation),
        }
    }
}

/// The claims that a token carries under a secret, where it holds at some
/// time, carries all four and its identifier reads as one.
pub open spec fn spec_claims_in(token: Seq<char>, secret: Seq<u8>) -> Option<ClaimsView> {
    match token_claims(token, secret) {
        Some(held) => spec_claims_of(held.0, held.1, held.2, held.3),
        None => None,
    }
}

/// Claims with this expiry have not expired at `now`: the expiry does not
/// lie before `now`.
pub open spec fn spec_holds_at(exp: u64, now: i64) -> bool {
    exp >= now
}

/// The token carries no claims under the secret, or claims that have
/// expired at `now`.
pub open spec fn spec_refused_at(token: Seq<char>, secret: Seq<u8>, now: i64) -> bool {
    match spec_claims_in(token, secret) {
        Some(claims) => !spec_holds_at(claims.exp, now),
        None => true,
    }
}

} // verus!
