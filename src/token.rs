//! Bearer tokens: HS256-signed JWTs carrying an email subject, issued for two
//! hours and checked against a supplied clock.

use vstd::prelude::*;

verus! {

/// How long an issued token stays valid, in seconds.
pub const TOKEN_LIFETIME_SECS: u64 = 7200;

/// The claims a token carries: expiry and issue times in seconds since the
/// Unix epoch, and the subject's email.
#[derive(Debug)]
pub struct Claims {
    pub exp: u64,
    pub iat: u64,
    pub email: String,
}

impl Claims {
    /// The claims as plain values: `(exp, iat, email)`.
    pub open spec fn parts(&self) -> (u64, u64, Seq<char>) {
        (self.exp, self.iat, self.email@)
    }
}

/// Why a token was not accepted.
#[derive(Debug, Clone, Copy, PartialEq, Eq, Structural)]
pub enum TokenError {
    /// The token is malformed, badly signed, or lacks its claims.
    Invalid,
    /// The token verified but its expiry time has passed.
    Expired,
}

#[verifier::external_type_specification]
#[verifier::external_body]
pub struct ExJwtError(jsonwebtoken::errors::Error);

/// The HS256 JWT that `jsonwebtoken::encode` makes of the claims
/// `{"email", "exp", "iat"}` under `secret`.
pub uninterp spec fn hs256_jwt(exp: u64, iat: u64, email: Seq<char>, secret: Seq<u8>) -> Seq<char>;

/// The claims `(exp, iat, email)` that `jsonwebtoken::decode` with HS256 and
/// `secret` reads from `token`, expiry aside, or `None` if it rejects it.
pub uninterp spec fn hs256_claims(token: Seq<char>, secret: Seq<u8>) -> Option<(u64, u64, Seq<char>)>;

/// Relies on `jsonwebtoken::encode` with `Header::default()` (HS256) and
/// `EncodingKey::from_secret`: an HMAC key matches the HS256 header, a JSON
/// map always serialises and HMAC signing has no failure path, so it always
/// succeeds; the token is a function of claims and secret, and `decode`
/// under the same secret reads the same claims back.
#[verifier::external_body]
fn sign_hs256(claims: &Claims, secret: &[u8]) -> (r: Result<String, jsonwebtoken::errors::Error>)
    ensures
        r is Ok,
        r matches Ok(t) ==> hs256_jwt(claims.exp, claims.iat, claims.email@, secret@) == t@,
        r matches Ok(t) ==> hs256_claims(t@, secret@) == Some(claims.parts()),
{
    let mut payload = serde_json::Map::new();
    payload.insert("exp".to_string(), serde_json::Value::from(claims.exp));
    payload.insert("iat".to_string(), serde_json::Value::from(claims.iat));
    payload.insert("email".to_string(), serde_json::Value::from(claims.email.as_str()));
    let key = jsonwebtoken::EncodingKey::from_secret(secret);
    jsonwebtoken::encode(&jsonwebtoken::Header::default(), &payload, &key)
}

/// Relies on `jsonwebtoken::decode` with `Validation::default()` (HS256,
/// `exp` required) but `validate_exp` off, so the result depends on token and
/// secret alone; the claims are read from the verified JSON payload.
#[verifier::external_body]
fn verify_hs256(token: &str, secret: &[u8]) -> (r: Option<Claims>)
    ensures
        match r {
            Some(c) => hs256_claims(token@, secret@) == Some(c.parts()),
            None => hs256_claims(token@, secret@) is None,
        },
{
    let mut validation = jsonwebtoken::Validation::default();
    validation.validate_exp = false;
    let key = jsonwebtoken::DecodingKey::from_secret(secret);
    let data = jsonwebtoken::decode::<serde_json::Map<String, serde_json::Value>>(
        token,
        &key,
        &validation,
    ).ok()?;
    let exp = data.claims.get("exp")?.as_u64()?;
    let iat = data.claims.get("iat")?.as_u64()?;
    let email = data.claims.get("email")?.as_str()?.to_string();
    Some(Claims { exp, iat, email })
}

/// The claims issued for `email` at time `now`.
pub open spec fn issued_claims(email: Seq<char>, now: u64) -> (u64, u64, Seq<char>) {
    ((now + TOKEN_LIFETIME_SECS) as u64, now, email)
}

/// The outcome of checking `token` at time `now`: its claims if it verifies
/// under `secret` and `now` is not past its expiry.
pub open spec fn token_check(token: Seq<char>, secret: Seq<u8>, now: u64) -> Result<
    (u64, u64, Seq<char>),
    TokenError,
> {
    match hs256_claims(token, secret) {
        None => Err(TokenError::Invalid),
        Some(c) => if now <= c.0 {
            Ok(c)
        } else {
            Err(TokenError::Expired)
        },
    }
}

/// The claims for a token issued to `email` at time `now`.
pub fn issue_claims(email: &str, now: u64) -> (c: Claims)
    requires
        now <= u64::MAX - TOKEN_LIFETIME_SECS,
    ensures
        c.parts() == issued_claims(email@, now),
{
    Claims { exp: now + TOKEN_LIFETIME_SECS, iat: now, email: email.to_string() }
}

/// Issues a token for `email` at time `now`, signed with `secret`.
pub fn encode_jwt(email: &str, now: u64, secret: &[u8]) -> (r: String)
    requires
        now <= u64::MAX - TOKEN_LIFETIME_SECS,
    ensures
        r@ == hs256_jwt((now + TOKEN_LIFETIME_SECS) as u64, now, email@, secret@),
        hs256_claims(r@, secret@) == Some(issued_claims(email@, now)),
{
    let claims = issue_claims(email, now);
    match sign_hs256(&claims, secret) {
        Ok(t) => t,
        Err(_) => {
            proof {
                assert(false);
            }
            String::new()
        },
    }
}

/// Accepts verified claims at time `now` unless their expiry has passed.
pub fn check_claims_expiry(claims: Claims, now: u64) -> (r: Result<Claims, TokenError>)
    ensures
        now <= claims.exp ==> r == Ok::<Claims, TokenError>(claims),
        now > claims.exp ==> r == Err::<Claims, TokenError>(TokenError::Expired),
{
    if now <= claims.exp {
        Ok(claims)
    } else {
        Err(TokenError::Expired)
    }
}

/// Verifies `jwt_token` under `secret` and checks its expiry at time `now`.
pub fn decode_jwt(jwt_token: &str, secret: &[u8], now: u64) -> (r: Result<Claims, TokenError>)
    ensures
        match token_check(jwt_token@, secret@, now) {
            Ok(c) => r matches Ok(x) && x.parts() == c,
            Err(e) => r == Err::<Claims, TokenError>(e),
        },
{
    match verify_hs256(jwt_token, secret) {
        None => Err(TokenError::Invalid),
        Some(claims) => check_claims_expiry(claims, now),
    }
}

/// A token issued to `email` at time `t` is accepted, with the claims it was
/// issued with, at every time up to `t` plus the lifetime, and rejected as
/// expired at every later time.
pub proof fn lemma_token_lifetime(
    token: Seq<char>,
    secret: Seq<u8>,
    email: Seq<char>,
    t: u64,
    now: u64,
)
    requires
        t <= u64::MAX - TOKEN_LIFETIME_SECS,
        hs256_claims(token, secret) == Some(issued_claims(email, t)),
    ensures
        now <= t + TOKEN_LIFETIME_SECS ==> token_check(token, secret, now) == Ok::<
            (u64, u64, Seq<char>),
            TokenError,
        >(issued_claims(email, t)),
        now > t + TOKEN_LIFETIME_SECS ==> token_check(token, secret, now) == Err::<
            (u64, u64, Seq<char>),
            TokenError,
        >(TokenError::Expired),
{
}

} // verus!
