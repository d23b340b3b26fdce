//! Signed tokens: what `jsonwebtoken` makes of claims and a secret, and what
//! it reads back.

use vstd::prelude::*;
use crate::claims::{
    Claims,
    CLAIM_EXP,
    CLAIM_PERMISSIONS_BITWISE,
    CLAIM_USERNAME,
    CLAIM_USER_PUBLIC_ID,
};

verus! {

#[verifier::external_type_specification]
#[verifier::external_body]
pub struct ExJwtError(jsonwebtoken::errors::Error);

/// The four claims as a checked token held them, each absent where the token
/// had no claim of that name and kind.
#[derive(Debug, Clone, PartialEq, Eq)]
pub struct RawClaims {
    pub username: Option<String>,
    pub user_public_id: Option<String>,
    pub permissions_bitwise: Option<String>,
    pub exp: Option<u64>,
}

impl RawClaims {
    /// The name claim, as text.
    pub open spec fn spec_username(&self) -> Option<Seq<char>> {
        match self.username {
            Some(s) => Some(s@),
            None => None,
        }
    }

    /// The identifier claim, as text.
    pub open spec fn spec_user_public_id(&self) -> Option<Seq<char>> {
        match self.user_public_id {
            Some(s) => Some(s@),
            None => None,
        }
    }

    /// The permission claim, as text.
    pub open spec fn spec_permissions_bitwise(&self) -> Option<Seq<char>> {
        match self.permissions_bitwise {
            Some(s) => Some(s@),
            None => None,
        }
    }

    /// The four claims: name, identifier, permissions, expiry.
    pub open spec fn spec_fields(&self) -> (
        Option<Seq<char>>,
        Option<Seq<char>>,
        Option<Seq<char>>,
        Option<u64>,
    ) {
        (
            self.spec_username(),
            self.spec_user_public_id(),
            self.spec_permissions_bitwise(),
            self.exp,
        )
    }
}

/// The HS256 token over the four claims, signed with `secret`.
pub uninterp spec fn signed_token(
    username: Seq<char>,
    user_public_id: u128,
    permissions_bitwise: Seq<char>,
    exp: u64,
    secret: Seq<u8>,
) -> Seq<char>;

/// Signs the claims with `jsonwebtoken::encode`, under the default header
/// (HS256) and a key made from `secret`. The claims go in as a JSON object of
/// the four named claims, the identifier as hyphenated UUID text. Trusted:
/// the call succeeds, since under HS256 with a secret key no step of
/// `encode` can fail, and the token is the one that `signed_token` names.
#[verifier::external_body]
pub(crate) fn jwt_encode(claims: &Claims, secret: &[u8]) -> (r: Result<
    String,
    jsonwebtoken::errors::Error,
>)
    ensures
        r is Ok,
        r matches Ok(token) ==> token@ == signed_token(
            claims.username@,
            claims.user_public_id,
            claims.permissions_bitwise@,
            claims.exp,
            secret@,
        ),
{
    let id = uuid::Uuid::from_u128(claims.user_public_id).to_string();
    let mut body = serde_json::Map::new();
    body.insert(CLAIM_USERNAME.to_string(), claims.username.as_str().into());
    body.insert(CLAIM_USER_PUBLIC_ID.to_string(), id.into());
    body.insert(CLAIM_PERMISSIONS_BITWISE.to_string(), claims.permissions_bitwise.as_str().into());
    body.insert(CLAIM_EXP.to_string(), claims.exp.into());
    let key = jsonwebtoken::EncodingKey::from_secret(secret);
    jsonwebtoken::encode(&jsonwebtoken::Header::default(), &body, &key)
}

/// The four claims that a token carries under a secret, each absent where
/// the token has no claim of that name and kind: what checking the token
/// against the secret hands out whenever the check succeeds. `None` stands
/// for a token that holds at no time: one that is malformed or not signed
/// with the secret.
pub uninterp spec fn token_claims(token: Seq<char>, secret: Seq<u8>) -> Option<
    (Option<Seq<char>>, Option<Seq<char>>, Option<Seq<char>>, Option<u64>),
>;

/// Checks a token with `jsonwebtoken::decode`, under the default validation
/// (HS256, expiry checked against the clock with a minute of leeway) and a
/// key made from `secret`, and hands out the four claims of its JSON body.
/// Trusted: whether a token holds depends on the time, so nothing is said
/// of when the check succeeds; where it does, the claims are read from the
/// token before the time is looked at, so they are the ones that
/// `token_claims` names for the token and the secret.
#[verifier::external_body]
pub(crate) fn jwt_decode(token: &str, secret: &[u8]) -> (r: Result<
    RawClaims,
    jsonwebtoken::errors::Error,
>)
    ensures
        r matches Ok(raw) ==> token_claims(token@, secret@) == Some(raw.spec_fields()),
{
    let key = jsonwebtoken::DecodingKey::from_secret(secret);
    let rules = jsonwebtoken::Validation::default();
    let body = jsonwebtoken::decode::<serde_json::Value>(token, &key, &rules)?.claims;
    Ok(
        RawClaims {
            username: body[CLAIM_USERNAME].as_str().map(String::from),
            user_public_id: body[CLAIM_USER_PUBLIC_ID].as_str().map(String::from),
            permissions_bitwise: body[CLAIM_PERMISSIONS_BITWISE].as_str().map(String::from),
            exp: body[CLAIM_EXP].as_u64(),
        },
    )
}

} // verus!
