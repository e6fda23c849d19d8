use vstd::prelude::*;

use std::collections::BTreeMap;

use jsonwebtoken::{Algorithm, DecodingKey, EncodingKey, Header, Validation};

use crate::error::{AuthError, AuthFailure};
use crate::ids::{format_uuid, parse_uuid, uuid_parsed, uuid_text};

verus! {

/// Lifetime of an issued token, in seconds (24 hours).
pub const TOKEN_TTL_SECS: u64 = 86400;

/// The claims a token carries: the user's id as text, and the issue and expiry
/// times in seconds since the Unix epoch.
#[derive(Debug, Clone)]
pub struct TokenClaims {
    pub sub: String,
    pub iat: u64,
    pub exp: u64,
}

/// Process-wide settings of the authentication core, built once at startup.
pub struct AuthConfig {
    /// The symmetric secret that signs and checks tokens.
    pub jwt_secret: Vec<u8>,
}

/// The claims `(sub, iat, exp)` that `token` carries when its structure and its
/// HS256 signature under `secret` check out and the three claims are present;
/// `None` otherwise. Expiry plays no part here.
pub uninterp spec fn jwt_claims(token: Seq<char>, secret: Seq<u8>) -> Option<(Seq<char>, u64, u64)>;

/// Relies on jsonwebtoken::encode with the default header (HS256) and an HMAC key from
/// jsonwebtoken::EncodingKey::from_secret, on a JSON object of sub, iat and exp. With an
/// HMAC key and the HS256 header it always succeeds, and the token it returns (three
/// dot-separated parts) decodes under the same secret to the same claims.
#[verifier::external_body]
fn jwt_sign(sub: &str, iat: u64, exp: u64, secret: &[u8]) -> (r: Option<String>)
    ensures
        r is Some,
        r matches Some(t) ==> t@.len() > 0,
        r matches Some(t) ==> jwt_claims(t@, secret@) == Some((sub@, iat, exp)),
{
    let mut claims = BTreeMap::new();
    claims.insert("sub", serde_json::Value::from(sub));
    claims.insert("iat", serde_json::Value::from(iat));
    claims.insert("exp", serde_json::Value::from(exp));
    jsonwebtoken::encode(&Header::default(), &claims, &EncodingKey::from_secret(secret)).ok()
}

/// Relies on jsonwebtoken::decode with HS256 and an HMAC key from
/// jsonwebtoken::DecodingKey::from_secret, with its own expiry check switched off:
/// it checks the structure, the signature and that `exp` is present.
#[verifier::external_body]
fn jwt_decode(token: &str, secret: &[u8]) -> (r: Option<TokenClaims>)
    ensures
        match jwt_claims(token@, secret@) {
            Some((s, i, e)) => r matches Some(c) && c.sub@ == s && c.iat == i && c.exp == e,
            None => r is None,
        },
{
    let mut v = Validation::new(Algorithm::HS256);
    v.validate_exp = false;
    let key = DecodingKey::from_secret(secret);
    let c = jsonwebtoken::decode::<BTreeMap<String, serde_json::Value>>(token, &key, &v).ok()?.claims;
    let sub = c.get("sub")?.as_str()?.to_string();
    Some(TokenClaims { sub, iat: c.get("iat")?.as_u64()?, exp: c.get("exp")?.as_u64()? })
}

/// `token` was issued under `secret` for `subject` at time `t0`.
pub open spec fn issued(token: Seq<char>, secret: Seq<u8>, subject: u128, t0: u64) -> bool {
    match jwt_claims(token, secret) {
        Some((s, i, e)) => uuid_parsed(s) == Some(subject) && i == t0 && e == t0 + TOKEN_TTL_SECS,
        None => false,
    }
}

/// The subject that decoded claims yield at time `now`: only a claim set that has not
/// expired (`exp > now`) and whose subject is a UUID yields one.
pub open spec fn claims_subject(claims: Option<(Seq<char>, u64, u64)>, now: u64) -> Result<u128, AuthError> {
    match claims {
        Some((s, _, e)) => if e > now {
            match uuid_parsed(s) {
                Some(id) => Ok(id),
                None => Err(AuthError::Unauthenticated(AuthFailure::InvalidSubject)),
            }
        } else {
            Err(AuthError::Unauthenticated(AuthFailure::InvalidToken))
        },
        None => Err(AuthError::Unauthenticated(AuthFailure::InvalidToken)),
    }
}

/// What checking `token` under `secret` at time `now` yields.
pub open spec fn token_subject(token: Seq<char>, secret: Seq<u8>, now: u64) -> Result<u128, AuthError> {
    claims_subject(jwt_claims(token, secret), now)
}

/// The claims of a token issued for `subject` at `now`.
pub fn issue_claims(subject: u128, now: u64) -> (r: TokenClaims)
    requires
        now + TOKEN_TTL_SECS <= u64::MAX,
    ensures
        r.sub@ == uuid_text(subject),
        uuid_parsed(r.sub@) == Some(subject),
        r.iat == now,
        r.exp == now + TOKEN_TTL_SECS,
{
    TokenClaims { sub: format_uuid(subject), iat: now, exp: now + TOKEN_TTL_SECS }
}

/// Issues a signed token for `subject`, valid for 24 hours from `now`.
pub fn issue_token(config: &AuthConfig, subject: u128, now: u64) -> (r: String)
    requires
        now + TOKEN_TTL_SECS <= u64::MAX,
    ensures
        r@.len() > 0,
        issued(r@, config.jwt_secret@, subject, now),
        jwt_claims(r@, config.jwt_secret@) == Some(
            (uuid_text(subject), now, (now + TOKEN_TTL_SECS) as u64),
        ),
{
    let claims = issue_claims(subject, now);
    jwt_sign(claims.sub.as_str(), claims.iat, claims.exp, config.jwt_secret.as_slice()).unwrap()
}

/// Decides on claims that a token decoded to: the subject of a live token, and
/// `InvalidToken` for a token that failed to decode or has expired, and `InvalidSubject`
/// for one whose subject is not a UUID.
pub fn check_claims(claims: Option<TokenClaims>, now: u64) -> (r: Result<u128, AuthError>)
    ensures
        r == claims_subject(
            match claims {
                Some(c) => Some((c.sub@, c.iat, c.exp)),
                None => None,
            },
            now,
        ),
{
    match claims {
        Some(c) => {
            if c.exp > now {
                match parse_uuid(c.sub.as_str()) {
                    Some(id) => Ok(id),
                    None => Err(AuthError::Unauthenticated(AuthFailure::InvalidSubject)),
                }
            } else {
                Err(AuthError::Unauthenticated(AuthFailure::InvalidToken))
            }
        },
        None => Err(AuthError::Unauthenticated(AuthFailure::InvalidToken)),
    }
}

/// Checks a token's signature and expiry at time `now` and yields its subject.
/// A malformed, forged or expired token gives the same `InvalidToken` failure.
pub fn verify_token(config: &AuthConfig, token: &str, now: u64) -> (r: Result<u128, AuthError>)
    ensures
        r == token_subject(token@, config.jwt_secret@, now),
{
    check_claims(jwt_decode(token, config.jwt_secret.as_slice()), now)
}

/// A token issued at `t0` is accepted at every time before `t0` plus 24 hours, with its
/// subject, and refused as an invalid token from then on.
pub proof fn lemma_token_lifetime(token: Seq<char>, secret: Seq<u8>, subject: u128, t0: u64, t: u64)
    requires
        issued(token, secret, subject, t0),
    ensures
        t < t0 + TOKEN_TTL_SECS ==> token_subject(token, secret, t) == Ok::<u128, AuthError>(subject),
        t >= t0 + TOKEN_TTL_SECS ==> token_subject(token, secret, t) == Err::<u128, AuthError>(
            AuthError::Unauthenticated(AuthFailure::InvalidToken),
        ),
{
}

} // verus!
