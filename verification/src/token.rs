//! Signed, time-limited bearer tokens.
//!
//! A token is a compact three-segment string signed with HMAC-SHA256 under a
//! shared secret. It carries the user id it speaks for and the time at which
//! it expires. Signing and signature checking are done by `jsonwebtoken`;
//! the lifetime of a token and the expiry rule are decided here.

use vstd::prelude::*;

verus! {

/// How long an issued token stays valid, in seconds.
pub const TOKEN_LIFETIME_SECS: i64 = 1800;

/// The payload carried inside a token.
#[derive(Clone, Copy, Debug, PartialEq, Eq, Structural)]
pub struct TokenClaims {
    /// Identifier of the user the token speaks for.
    pub sub: i32,
    /// Unix time, in seconds, from which the token is no longer accepted.
    pub exp: usize,
}

/// Why a token could not be issued or was not accepted.
#[derive(Clone, Copy, Debug, PartialEq, Eq, Structural)]
pub enum TokenError {
    /// The expiration time of a token issued now does not fit the claims.
    ExpiryOutOfRange,
    /// The signer reported an error. With an HMAC secret it has no failing
    /// path, and `encode_token_at` is proved never to return this; it is
    /// what a caller would see if the signer ever did refuse.
    Signing,
    /// The token is malformed, carries a wrong signature, or has expired.
    /// The three are deliberately not told apart.
    Invalid,
}

/// The two claims as they come out of a token whose signature was accepted,
/// before any range check: `sub` if it is an integer that fits `i64`, `exp`
/// if it is an integer that fits `u64`.
pub type RawClaims = (Option<i64>, Option<u64>);

/// The error of `jsonwebtoken`. It is passed through unread: what went wrong
/// inside the signer or the decoder is not reported to callers.
#[verifier::external_type_specification]
#[verifier::external_body]
pub struct ExJwtError(jsonwebtoken::errors::Error);

/// The token that `jsonwebtoken::encode` produces for the claims
/// `{sub, exp}` under the HMAC secret `secret` with the default header.
pub uninterp spec fn signed_token(secret: Seq<char>, sub: i32, exp: usize) -> Seq<char>;

/// The claims that `jsonwebtoken::decode` hands back for `token` under the
/// HMAC secret `secret` when it checks everything but the expiration time,
/// or `None` where it reports an error.
pub uninterp spec fn verified_claims(secret: Seq<char>, token: Seq<char>) -> Option<RawClaims>;

/// `token` bears a signature that `secret` accepts, over exactly `claims`.
pub open spec fn carries(secret: Seq<char>, token: Seq<char>, claims: TokenClaims) -> bool {
    verified_claims(secret, token) == Some((Some(claims.sub as i64), Some(claims.exp as u64)))
}

/// Signs the claims `{sub, exp}` with `jsonwebtoken::encode`, using the
/// default header (HS256) and `secret` as the HMAC key.
///
/// Believed of the signer: it succeeds, since the key is an HMAC key as the
/// default header asks, two integers under two text keys always serialize,
/// and HMAC signing cannot fail; the token depends on the three arguments
/// alone; and `jsonwebtoken::decode` accepts it under the same secret and
/// then hands back the same two claims.
#[verifier::external_body]
fn sign_claims(secret: &str, sub: i32, exp: usize) -> (res: Result<
    String,
    jsonwebtoken::errors::Error,
>)
    ensures
        res is Ok,
        match res {
            Ok(token) => token@ == signed_token(secret@, sub, exp) && carries(
                secret@,
                token@,
                TokenClaims { sub, exp },
            ),
            Err(_) => true,
        },
{
    let mut claims = serde_json::Map::new();
    claims.insert("sub".to_string(), serde_json::Value::from(sub));
    claims.insert("exp".to_string(), serde_json::Value::from(exp));
    let key = jsonwebtoken::EncodingKey::from_secret(secret.as_bytes());
    jsonwebtoken::encode(&jsonwebtoken::Header::default(), &claims, &key)
}

/// Checks `token` with `jsonwebtoken::decode` under the default validation
/// (HS256, `exp` must be present) with `secret` as the HMAC key, and picks
/// the `sub` and `exp` claims out of the payload.
///
/// The decoder's own expiry check is switched off: it reads the clock itself
/// and tolerates a minute of skew, whereas expiry is judged here, exactly,
/// by `accept_claims`. Believed of the decoder: with that check off its
/// outcome depends on the two arguments alone.
#[verifier::external_body]
fn check_signature(secret: &str, token: &str) -> (res: Result<
    RawClaims,
    jsonwebtoken::errors::Error,
>)
    ensures
        match res {
            Ok(raw) => verified_claims(secret@, token@) == Some(raw),
            Err(_) => verified_claims(secret@, token@) is None,
        },
{
    let key = jsonwebtoken::DecodingKey::from_secret(secret.as_bytes());
    let mut validation = jsonwebtoken::Validation::default();
    validation.validate_exp = false;
    let data = jsonwebtoken::decode::<serde_json::Value>(token, &key, &validation)?;
    let sub = data.claims.get("sub").and_then(serde_json::Value::as_i64);
    let exp = data.claims.get("exp").and_then(serde_json::Value::as_u64);
    Ok((sub, exp))
}

/// Reads the system clock with `chrono::Utc::now` and returns what its
/// `timestamp` gives: seconds since the Unix epoch.
///
/// Believed of chrono: the value is not negative, since `Utc::now` returns
/// only where the system time is at or after the epoch. Nothing else is
/// promised of it.
#[verifier::external_body]
fn unix_now() -> (now: i64)
    ensures
        0 <= now,
{
    chrono::Utc::now().timestamp()
}

/// The expiration time of a token issued at `now`, where the claims can
/// hold it.
pub open spec fn expiry(now: i64) -> Option<usize> {
    if 0 <= now + TOKEN_LIFETIME_SECS <= usize::MAX {
        Some((now + TOKEN_LIFETIME_SECS) as usize)
    } else {
        None
    }
}

/// The claims of a token issued for `subject` at `now`.
pub open spec fn issued_claims(subject: i32, now: i64) -> Option<TokenClaims> {
    match expiry(now) {
        Some(exp) => Some(TokenClaims { sub: subject, exp }),
        None => None,
    }
}

/// What `encode_token_at` returns.
pub open spec fn encode_token_spec(secret: Seq<char>, subject: i32, now: i64) -> Result<
    Seq<char>,
    TokenError,
> {
    match expiry(now) {
        Some(exp) => Ok(signed_token(secret, subject, exp)),
        None => Err(TokenError::ExpiryOutOfRange),
    }
}

/// The claims in their own types, where both are present and in range.
pub open spec fn claims_in_range(raw: RawClaims) -> Option<TokenClaims> {
    match raw {
        (Some(sub), Some(exp)) => if i32::MIN <= sub <= i32::MAX && exp <= usize::MAX {
            Some(TokenClaims { sub: sub as i32, exp: exp as usize })
        } else {
            None
        },
        _ => None,
    }
}

/// The verdict on a token at time `now`, given what the signature check
/// made of it: the claims if they are present, in range and expire
/// strictly after `now`.
pub open spec fn accept_claims(checked: Option<RawClaims>, now: i64) -> Result<
    TokenClaims,
    TokenError,
> {
    match checked {
        Some(raw) => match claims_in_range(raw) {
            Some(claims) => if claims.exp > now {
                Ok(claims)
            } else {
                Err(TokenError::Invalid)
            },
            None => Err(TokenError::Invalid),
        },
        None => Err(TokenError::Invalid),
    }
}

/// What `decode_token_at` returns.
pub open spec fn decode_token_spec(secret: Seq<char>, token: Seq<char>, now: i64) -> Result<
    TokenClaims,
    TokenError,
> {
    accept_claims(verified_claims(secret, token), now)
}

/// The view of an issuing result.
pub open spec fn issued_view(res: Result<String, TokenError>) -> Result<Seq<char>, TokenError> {
    match res {
        Ok(token) => Ok(token@),
        Err(e) => Err(e),
    }
}

/// Computes the expiration time of a token issued at `now`.
pub fn expiration_after(now: i64) -> (exp: Option<usize>)
    ensures
        exp == expiry(now),
{
    if now < -TOKEN_LIFETIME_SECS {
        return None;
    }
    let at: u64 = if now < 0 {
        (now + TOKEN_LIFETIME_SECS) as u64
    } else {
        now as u64 + TOKEN_LIFETIME_SECS as u64
    };
    if at > usize::MAX as u64 {
        return None;
    }
    Some(at as usize)
}

/// Whether a token that expires at `exp` is still accepted at `now`: only
/// strictly before its expiration time.
pub fn is_current(exp: usize, now: i64) -> (current: bool)
    ensures
        current == (exp > now),
{
    now < 0 || exp as u64 > now as u64
}

/// Turns the claims of a token whose signature was accepted into a verdict
/// at time `now`.
pub fn claims_if_current(checked: Option<RawClaims>, now: i64) -> (res: Result<
    TokenClaims,
    TokenError,
>)
    ensures
        res == accept_claims(checked, now),
{
    match checked {
        Some((Some(sub), Some(exp))) => {
            if sub < i32::MIN as i64 || sub > i32::MAX as i64 || exp > usize::MAX as u64 {
                return Err(TokenError::Invalid);
            }
            let claims = TokenClaims { sub: sub as i32, exp: exp as usize };
            if is_current(claims.exp, now) {
                Ok(claims)
            } else {
                Err(TokenError::Invalid)
            }
        },
        _ => Err(TokenError::Invalid),
    }
}

/// Issues a token for `subject` as of the time `now`: it expires
/// `TOKEN_LIFETIME_SECS` later. A token is issued wherever that expiration
/// time fits the claims, and `ExpiryOutOfRange` is returned where it does
/// not.
///
/// The token returned decodes under the same secret to the issued claims at
/// every time before its expiration, and is rejected from then on.
pub fn encode_token_at(secret: &str, subject: i32, now: i64) -> (res: Result<String, TokenError>)
    ensures
        issued_view(res) == encode_token_spec(secret@, subject, now),
        res is Ok <==> expiry(now) is Some,
        res matches Ok(token) ==> {
            &&& issued_claims(subject, now) matches Some(claims)
            &&& carries(secret@, token@, claims)
            &&& forall|at: i64|
                #[trigger] decode_token_spec(secret@, token@, at) == if at < now
                    + TOKEN_LIFETIME_SECS {
                    Ok(claims)
                } else {
                    Err(TokenError::Invalid)
                }
        },
{
    let exp = match expiration_after(now) {
        Some(exp) => exp,
        None => {
            return Err(TokenError::ExpiryOutOfRange);
        },
    };
    match sign_claims(secret, subject, exp) {
        Ok(token) => {
            proof {
                let claims = TokenClaims { sub: subject, exp };
                assert forall|at: i64|
                    #[trigger] decode_token_spec(secret@, token@, at) == if at < now
                        + TOKEN_LIFETIME_SECS {
                        Ok::<TokenClaims, TokenError>(claims)
                    } else {
                        Err(TokenError::Invalid)
                    } by {
                    lemma_carried_claims_decode(secret@, token@, claims, at);
                }
            }
            Ok(token)
        },
        Err(_) => Err(TokenError::Signing),
    }
}

/// Issues a token for `subject` that expires `TOKEN_LIFETIME_SECS` after the
/// current time. The clock never reads before the epoch, so a token is
/// issued unless its expiration time is too large for the claims.
pub fn encode_token(secret: &str, subject: i32) -> (res: Result<String, TokenError>)
    ensures
        exists|now: i64|
            {
                &&& 0 <= now
                &&& issued_view(res) == #[trigger] encode_token_spec(secret@, subject, now)
                &&& res matches Ok(token) ==> issued_claims(subject, now) matches Some(claims)
                    && carries(secret@, token@, claims)
            },
        res matches Err(e) ==> e == TokenError::ExpiryOutOfRange,
{
    encode_token_at(secret, subject, unix_now())
}

/// Decodes `token` as of the time `now`: checks its signature under
/// `secret`, then that its claims are in range and not yet expired.
pub fn decode_token_at(secret: &str, token: &str, now: i64) -> (res: Result<
    TokenClaims,
    TokenError,
>)
    ensures
        res == decode_token_spec(secret@, token@, now),
{
    let checked = match check_signature(secret, token) {
        Ok(raw) => Some(raw),
        Err(_) => None,
    };
    claims_if_current(checked, now)
}

/// Decodes `token` as of the current time.
pub fn decode_token(secret: &str, token: &str) -> (res: Result<TokenClaims, TokenError>)
    ensures
        exists|now: i64| 0 <= now && res == #[trigger] decode_token_spec(secret@, token@, now),
        match res {
            Ok(claims) => carries(secret@, token@, claims),
            Err(e) => e == TokenError::Invalid,
        },
{
    decode_token_at(secret, token, unix_now())
}

/// A token that carries `claims` decodes to them at every time strictly
/// before `claims.exp` and is rejected at every time from `claims.exp` on.
pub proof fn lemma_carried_claims_decode(
    secret: Seq<char>,
    token: Seq<char>,
    claims: TokenClaims,
    now: i64,
)
    requires
        carries(secret, token, claims),
    ensures
        decode_token_spec(secret, token, now) == if now < claims.exp {
            Ok(claims)
        } else {
            Err(TokenError::Invalid)
        },
{
}

/// A token is never accepted at or after the expiration time it states,
/// whatever else it holds and whoever signed it.
pub proof fn lemma_expired_token_rejected(secret: Seq<char>, token: Seq<char>, now: i64)
    requires
        verified_claims(secret, token) matches Some((_, Some(exp))) && exp <= now,
    ensures
        decode_token_spec(secret, token, now) == Err::<TokenClaims, TokenError>(
            TokenError::Invalid,
        ),
{
}

/// Decoding never fails with anything but `Invalid`, and the claims it
/// accepts expire strictly after `now`.
pub proof fn lemma_decode_outcomes(secret: Seq<char>, token: Seq<char>, now: i64)
    ensures
        match decode_token_spec(secret, token, now) {
            Ok(claims) => claims.exp > now && carries(secret, token, claims),
            Err(e) => e == TokenError::Invalid,
        },
{
}

} // verus!
