//! Access and refresh tokens: their claims, lifetimes and the bookkeeping of a grant.

use vstd::prelude::*;
use jsonwebtoken::{decode, encode, Algorithm, DecodingKey, EncodingKey, Header, Validation};
use crate::runtime::now_millis;

verus! {

/// The claims a token carries. `iat` and `exp` are Unix timestamps in seconds.
pub struct Claims {
    pub token_id: String,
    /// The user the token was issued to.
    pub user_id: i64,
    pub sub: String,
    /// When the token was issued.
    pub iat: i64,
    /// When the token expires.
    pub exp: i64,
}

impl Claims {
    pub fn new(token_id: String, user_id: i64, sub: String, iat: i64, exp: i64) -> (r: Self)
        ensures
            r.token_id == token_id,
            r.user_id == user_id,
            r.sub == sub,
            r.iat == iat,
            r.exp == exp,
    {
        Claims { token_id, user_id, sub, iat, exp }
    }
}

/// The tokens handed out at login; `exp` is the access token's lifetime in seconds.
pub struct AccessToken {
    pub access_token: String,
    pub refresh_token: String,
    pub exp: i64,
}

/// The token settings: the signing secret, the subject, and the lifetimes of
/// access and refresh tokens in seconds.
pub struct JwtConfig {
    pub secret: String,
    pub sub: String,
    pub access_token_validity: i64,
    pub refresh_token_validity: i64,
}

/// Errors of token bookkeeping.
#[derive(Debug)]
pub enum JwtError {
    /// Storing a new token pair failed.
    GrantFailed,
    /// The refresh token is not on record.
    RefreshTokenNotFound,
    /// The token is not one signed with the configured secret, or carries no
    /// such claims.
    InvalidToken,
    /// The token expired (more than the leeway ago).
    TokenExpired,
}

impl JwtError {
    pub fn message(&self) -> (r: String)
        ensures
            self is GrantFailed ==> r@ == "grant_access_token failed!"@,
            self is RefreshTokenNotFound ==> r@ == "refresh_token不存在"@,
            self is InvalidToken ==> r@ == "invalid token"@,
            self is TokenExpired ==> r@ == "token expired"@,
    {
        match self {
            JwtError::GrantFailed => "grant_access_token failed!".to_string(),
            JwtError::RefreshTokenNotFound => "refresh_token不存在".to_string(),
            JwtError::InvalidToken => "invalid token".to_string(),
            JwtError::TokenExpired => "token expired".to_string(),
        }
    }
}

/// The earliest Unix timestamp a token time may have (the start of year -9999).
pub const MIN_TIMESTAMP: i64 = -377705116800;

/// The latest Unix timestamp a token time may have (the end of year 9999).
pub const MAX_TIMESTAMP: i64 = 253402300799;

/// The whole days in a lifetime of `seconds` (rounded toward zero, as
/// `seconds / 60 / 60 / 24` computes it).
pub open spec fn whole_days(seconds: i64) -> int {
    if seconds >= 0 {
        seconds / 86400
    } else {
        -((-seconds) / 86400)
    }
}

/// When a token issued at `iat` with a lifetime of `validity` seconds expires:
/// `iat` plus the lifetime's whole days.
pub open spec fn expiry(iat: i64, validity: i64) -> int {
    iat + whole_days(validity) * 86400
}

/// The expiry of a token issued at `iat` with a lifetime of `validity` seconds.
/// The issue time and the expiry lie within the years -9999 to 9999.
pub fn token_expiry(iat: i64, validity: i64) -> (r: i64)
    requires
        MIN_TIMESTAMP <= iat <= MAX_TIMESTAMP,
        MIN_TIMESTAMP <= expiry(iat, validity) <= MAX_TIMESTAMP,
    ensures
        r == expiry(iat, validity),
{
    let v = validity as i128;
    let days: i128 = if v >= 0 { v / 86400 } else { 0 - ((0 - v) / 86400) };
    let r = iat as i128 + days * 86400;
    r as i64
}

/// The claims of the access token and of the refresh token of one grant.
pub fn token_claims(config: &JwtConfig, user_id: i64, token_id: &String, iat: i64) -> (r: (Claims, Claims))
    requires
        MIN_TIMESTAMP <= iat <= MAX_TIMESTAMP,
        MIN_TIMESTAMP <= expiry(iat, config.access_token_validity) <= MAX_TIMESTAMP,
        MIN_TIMESTAMP <= expiry(iat, config.refresh_token_validity) <= MAX_TIMESTAMP,
    ensures
        r.0.token_id@ == token_id@,
        r.1.token_id@ == token_id@,
        r.0.user_id == user_id,
        r.1.user_id == user_id,
        r.0.sub@ == config.sub@,
        r.1.sub@ == config.sub@,
        r.0.iat == iat,
        r.1.iat == iat,
        r.0.exp == expiry(iat, config.access_token_validity),
        r.1.exp == expiry(iat, config.refresh_token_validity),
{
    let access_exp = token_expiry(iat, config.access_token_validity);
    let refresh_exp = token_expiry(iat, config.refresh_token_validity);
    let access = Claims::new(token_id.clone(), user_id, config.sub.clone(), iat, access_exp);
    let refresh = Claims::new(token_id.clone(), user_id, config.sub.clone(), iat, refresh_exp);
    (access, refresh)
}

/// Whether a grant at `iat` has its issue time and both expiries within the
/// years -9999 to 9999 (outside them the times cannot be represented).
pub fn grant_times_in_range(config: &JwtConfig, iat: i64) -> (r: bool)
    ensures
        r == (MIN_TIMESTAMP <= iat <= MAX_TIMESTAMP
            && MIN_TIMESTAMP <= expiry(iat, config.access_token_validity) <= MAX_TIMESTAMP
            && MIN_TIMESTAMP <= expiry(iat, config.refresh_token_validity) <= MAX_TIMESTAMP),
{
    let a = config.access_token_validity as i128;
    let b = config.refresh_token_validity as i128;
    let a_days: i128 = if a >= 0 { a / 86400 } else { 0 - ((0 - a) / 86400) };
    let b_days: i128 = if b >= 0 { b / 86400 } else { 0 - ((0 - b) / 86400) };
    let t = iat as i128;
    let a_exp = t + a_days * 86400;
    let b_exp = t + b_days * 86400;
    let lo = MIN_TIMESTAMP as i128;
    let hi = MAX_TIMESTAMP as i128;
    lo <= t && t <= hi && lo <= a_exp && a_exp <= hi && lo <= b_exp && b_exp <= hi
}

/// The token jsonwebtoken's `encode` makes of the claims (token id, user id,
/// subject, issue time, expiry) with the default HS256 header and the secret.
pub uninterp spec fn hs256_token(secret: Seq<char>, token_id: Seq<char>, user_id: i64, sub: Seq<char>, iat: i64, exp: i64) -> Seq<char>;

/// The claims (token id, user id, subject, issue time, expiry) that a token
/// carries when its HS256 signature verifies under the secret and its payload
/// holds those fields, the expiry a number of seconds that is not negative;
/// `None` otherwise.
pub uninterp spec fn hs256_claims(secret: Seq<char>, token: Seq<char>) -> Option<(Seq<char>, i64, Seq<char>, i64, i64)>;

/// `jsonwebtoken::encode` with `Header::default()` (HS256) and
/// `EncodingKey::from_secret`: the token is a function of the secret and the
/// claims, named `hs256_token`, and its signature verifies under the same
/// secret with the claims as its payload (which holds them as
/// `hs256_claims` asks when the expiry is not negative). `encode` fails only for a key of
/// another algorithm family than the header's, which `from_secret` never gives.
#[verifier::external_body]
fn hs256_sign(secret: &str, c: &Claims) -> (r: String)
    ensures
        r@ == hs256_token(secret@, c.token_id@, c.user_id, c.sub@, c.iat, c.exp),
        c.exp >= 0 ==> hs256_claims(secret@, r@) == Some((c.token_id@, c.user_id, c.sub@, c.iat, c.exp)),
{
    let mut m = serde_json::Map::new();
    m.insert("token_id".to_string(), c.token_id.clone().into());
    m.insert("user_id".to_string(), c.user_id.into());
    m.insert("sub".to_string(), c.sub.clone().into());
    m.insert("iat".to_string(), c.iat.into());
    m.insert("exp".to_string(), c.exp.into());
    encode(&Header::default(), &m, &EncodingKey::from_secret(secret.as_bytes())).unwrap_or_default()
}

/// `jsonwebtoken::decode` with `Validation::new(Algorithm::HS256)` without
/// its expiry check (`validate_exp = false`; the `exp` claim is still
/// required) and `DecodingKey::from_secret`, the claims read out of the
/// payload. The result is a function of the secret and the token, named
/// `hs256_claims`.
#[verifier::external_body]
fn hs256_decode(secret: &str, token: &str) -> (r: Option<(String, i64, String, i64, i64)>)
    ensures
        hs256_claims(secret@, token@) == (match r {
            Some(c) => Some((c.0@, c.1, c.2@, c.3, c.4)),
            None => None,
        }),
{
    let mut validation = Validation::new(Algorithm::HS256);
    validation.validate_exp = false;
    let v = decode::<serde_json::Value>(token, &DecodingKey::from_secret(secret.as_bytes()), &validation).ok()?.claims;
    Some((
        v.get("token_id")?.as_str()?.to_string(),
        v.get("user_id")?.as_i64()?,
        v.get("sub")?.as_str()?.to_string(),
        v.get("iat")?.as_i64()?,
        v.get("exp")?.as_i64()?,
    ))
}

/// The signed access and refresh tokens of one grant issued at `iat` under
/// token id `token_id`: each is the HS256 token of its claims, and (with an
/// expiry that is not negative) carries those claims under the configured
/// secret.
pub fn issue_tokens(config: &JwtConfig, user_id: i64, token_id: &String, iat: i64) -> (r: (String, String))
    requires
        MIN_TIMESTAMP <= iat <= MAX_TIMESTAMP,
        MIN_TIMESTAMP <= expiry(iat, config.access_token_validity) <= MAX_TIMESTAMP,
        MIN_TIMESTAMP <= expiry(iat, config.refresh_token_validity) <= MAX_TIMESTAMP,
    ensures
        r.0@ == hs256_token(config.secret@, token_id@, user_id, config.sub@, iat,
            expiry(iat, config.access_token_validity) as i64),
        r.1@ == hs256_token(config.secret@, token_id@, user_id, config.sub@, iat,
            expiry(iat, config.refresh_token_validity) as i64),
        expiry(iat, config.access_token_validity) >= 0 ==> hs256_claims(config.secret@, r.0@) == Some((token_id@,
            user_id, config.sub@, iat, expiry(iat, config.access_token_validity) as i64)),
        expiry(iat, config.refresh_token_validity) >= 0 ==> hs256_claims(config.secret@, r.1@) == Some((token_id@,
            user_id, config.sub@, iat, expiry(iat, config.refresh_token_validity) as i64)),
{
    let (access, refresh) = token_claims(config, user_id, token_id, iat);
    let access_token = hs256_sign(config.secret.as_str(), &access);
    let refresh_token = hs256_sign(config.secret.as_str(), &refresh);
    (access_token, refresh_token)
}

/// How long past its expiry a token is still accepted, in seconds (the
/// leeway of jsonwebtoken's validation).
pub const EXPIRY_LEEWAY: i64 = 60;

/// The claims of a token as a tuple.
pub open spec fn claims_tuple(c: Claims) -> (Seq<char>, i64, Seq<char>, i64, i64) {
    (c.token_id@, c.user_id, c.sub@, c.iat, c.exp)
}

/// The abstract content of the result of reading a token.
pub open spec fn claims_result(r: Result<Claims, JwtError>) -> Result<(Seq<char>, i64, Seq<char>, i64, i64), JwtError> {
    match r {
        Ok(c) => Ok(claims_tuple(c)),
        Err(e) => Err(e),
    }
}

/// What reading a token with the secret gives at time `now` (seconds): the
/// claims it carries unless it expired more than the leeway before `now`;
/// `InvalidToken` when it carries none under the secret.
pub open spec fn decode_outcome(secret: Seq<char>, token: Seq<char>, now: int) -> Result<(Seq<char>, i64, Seq<char>, i64, i64), JwtError> {
    match hs256_claims(secret, token) {
        None => Err(JwtError::InvalidToken),
        Some(c) => if c.4 < now - EXPIRY_LEEWAY {
            Err(JwtError::TokenExpired)
        } else {
            Ok(c)
        },
    }
}

/// The claims of an access token signed with the configured secret, read at
/// time `now` (seconds): `InvalidToken` for a token that carries no claims
/// under the secret, `TokenExpired` for one that expired more than the leeway
/// before `now`.
pub fn decode_access_token_at(config: &JwtConfig, token: &str, now: i64) -> (r: Result<Claims, JwtError>)
    ensures
        claims_result(r) == decode_outcome(config.secret@, token@, now as int),
{
    match hs256_decode(config.secret.as_str(), token) {
        Some((token_id, user_id, sub, iat, exp)) => {
            if (exp as i128) < (now as i128) - (EXPIRY_LEEWAY as i128) {
                Err(JwtError::TokenExpired)
            } else {
                Ok(Claims::new(token_id, user_id, sub, iat, exp))
            }
        },
        None => Err(JwtError::InvalidToken),
    }
}

/// The current time in seconds since the Unix epoch, as the clock gives it.
fn now_seconds() -> i64 {
    let ms = now_millis();
    if ms >= 0 {
        ms / 1000
    } else {
        0
    }
}

/// The claims of an access token signed with the configured secret, read
/// now: what `decode_access_token_at` gives at the time the clock reads.
pub fn decode_access_token(config: &JwtConfig, token: &str) -> (r: Result<Claims, JwtError>)
    ensures
        exists|now: i64| claims_result(r) == #[trigger] decode_outcome(config.secret@, token@, now as int),
{
    let now = now_seconds();
    let r = decode_access_token_at(config, token, now);
    assert(claims_result(r) == decode_outcome(config.secret@, token@, now as int));
    r
}

/// The claims of a refresh token; it is read as an access token is.
pub fn decode_refresh_token(config: &JwtConfig, token: &str) -> (r: Result<Claims, JwtError>)
    ensures
        exists|now: i64| claims_result(r) == #[trigger] decode_outcome(config.secret@, token@, now as int),
{
    decode_access_token(config, token)
}

/// A token that carries claims under the secret (as every token the library
/// issues with an expiry that is not negative does) reads back as those
/// claims at any time up to the leeway past its expiry, and as expired after.
pub proof fn law_issued_token_reads_back(secret: Seq<char>, token: Seq<char>, c: (Seq<char>, i64, Seq<char>, i64, i64), now: int)
    requires
        hs256_claims(secret, token) == Some(c),
    ensures
        now <= c.4 + EXPIRY_LEEWAY ==> decode_outcome(secret, token, now) == Ok::<(Seq<char>, i64, Seq<char>, i64, i64), JwtError>(c),
        now > c.4 + EXPIRY_LEEWAY ==> decode_outcome(secret, token, now) == Err::<(Seq<char>, i64, Seq<char>, i64, i64), JwtError>(JwtError::TokenExpired),
{
}

/// The outcome of a grant after the token pair was stored: the tokens and the
/// access token's lifetime when a row was written, otherwise `GrantFailed`.
pub fn grant_result(access_token: String, refresh_token: String, rows_affected: u64, config: &JwtConfig) -> (r: Result<AccessToken, JwtError>)
    ensures
        rows_affected > 0 ==> (r matches Ok(t) && t.access_token == access_token && t.refresh_token == refresh_token
            && t.exp == config.access_token_validity),
        rows_affected == 0 ==> r matches Err(JwtError::GrantFailed),
{
    if rows_affected > 0 {
        Ok(AccessToken { access_token, refresh_token, exp: config.access_token_validity })
    } else {
        Err(JwtError::GrantFailed)
    }
}

/// A refresh may go on only when the refresh token is on record.
pub fn refresh_allowed(on_record: bool) -> (r: Result<(), JwtError>)
    ensures
        on_record ==> r is Ok,
        !on_record ==> r matches Err(JwtError::RefreshTokenNotFound),
{
    if on_record {
        Ok(())
    } else {
        Err(JwtError::RefreshTokenNotFound)
    }
}

/// Whether removing a token removed anything.
pub fn removed(rows_affected: u64) -> (r: bool)
    ensures
        r == (rows_affected > 0),
{
    rows_affected > 0
}


/// A longer lifetime never gives an earlier expiry.
pub proof fn law_expiry_monotone(iat: i64, shorter: i64, longer: i64)
    requires
        shorter <= longer,
    ensures
        expiry(iat, shorter) <= expiry(iat, longer),
{
    if shorter >= 0 {
        assert(shorter / 86400 <= longer / 86400) by (nonlinear_arith)
            requires 0 <= shorter <= longer;
    } else if longer >= 0 {
        assert((-shorter) / 86400 >= 0) by (nonlinear_arith)
            requires -shorter > 0;
    } else {
        assert((-longer) / 86400 <= (-shorter) / 86400) by (nonlinear_arith)
            requires 0 < -longer <= -shorter;
    }
}

/// A token never expires before it is issued when its lifetime is not negative.
pub proof fn law_expiry_not_before_issue(iat: i64, validity: i64)
    requires
        validity >= 0,
    ensures
        expiry(iat, validity) >= iat,
{
    assert(validity / 86400 >= 0) by (nonlinear_arith)
        requires validity >= 0;
}

} // verus!
