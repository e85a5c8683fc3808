//! The state shared by all requests: the configuration and the registry of
//! revoked tokens.
//!
//! The registry only grows: a token that was revoked stays revoked for the
//! life of the process, and validation rejects it whatever its signature
//! and expiration time say. The state is owned by whoever serves requests;
//! a server that handles requests concurrently keeps it behind one lock and
//! holds the lock for one call at a time.

use vstd::prelude::*;
use vstd::hash_set::StringHashSet;
use crate::config::AppConfig;
use crate::header::{bearer_credentials, bearer_of};
use crate::response::{text_response, Response, ResponseView};
use crate::response::{STATUS_BAD_REQUEST, STATUS_INTERNAL_SERVER_ERROR, STATUS_UNAUTHORIZED};
use crate::token::{carries, decode_token, decode_token_at, decode_token_spec};
use crate::token::{verified_claims, TokenClaims, TokenError};

verus! {

/// Why a request that needs a token was turned down.
#[derive(Clone, Copy, Debug, PartialEq, Eq, Structural)]
pub enum AuthError {
    /// The token is malformed, forged or expired.
    InvalidToken,
    /// The token was revoked by a logout.
    RevokedToken,
    /// The request has no `Authorization` header with a bearer token.
    MissingHeader,
    /// The lock around the shared state could not be taken.
    LockError,
}

impl AuthError {
    /// The HTTP status that reports this error.
    pub open spec fn status(self) -> u16 {
        match self {
            AuthError::InvalidToken => STATUS_UNAUTHORIZED,
            AuthError::RevokedToken => STATUS_UNAUTHORIZED,
            AuthError::MissingHeader => STATUS_BAD_REQUEST,
            AuthError::LockError => STATUS_INTERNAL_SERVER_ERROR,
        }
    }

    /// The text that reports this error.
    pub open spec fn text(self) -> Seq<char> {
        match self {
            AuthError::InvalidToken => "Invalid or expired token"@,
            AuthError::RevokedToken => "Token has been revoked"@,
            AuthError::MissingHeader => "Missing Authorization header"@,
            AuthError::LockError => "Internal lock error"@,
        }
    }

    /// The response that reports this error.
    pub open spec fn response(self) -> ResponseView {
        text_response(self.status(), self.text())
    }

    /// The HTTP status that reports this error.
    pub fn status_code(&self) -> (code: u16)
        ensures
            code == self.status(),
    {
        match self {
            AuthError::InvalidToken | AuthError::RevokedToken => STATUS_UNAUTHORIZED,
            AuthError::MissingHeader => STATUS_BAD_REQUEST,
            AuthError::LockError => STATUS_INTERNAL_SERVER_ERROR,
        }
    }

    /// The text that reports this error.
    pub fn message(&self) -> (text: String)
        ensures
            text@ == self.text(),
    {
        match self {
            AuthError::InvalidToken => String::from_str("Invalid or expired token"),
            AuthError::RevokedToken => String::from_str("Token has been revoked"),
            AuthError::MissingHeader => String::from_str("Missing Authorization header"),
            AuthError::LockError => String::from_str("Internal lock error"),
        }
    }

    /// The response that reports this error: its status with its text.
    pub fn error_response(&self) -> (res: Response)
        ensures
            res@ == self.response(),
    {
        Response::text(self.status_code(), self.message())
    }
}

/// The verdict on a token, given what decoding made of it and whether it
/// was revoked. A token that does not decode is invalid whether or not it
/// was revoked; one that decodes is turned down if it was revoked.
pub open spec fn revocation_verdict(decoded: Result<TokenClaims, TokenError>, revoked: bool)
    -> Result<TokenClaims, AuthError> {
    match decoded {
        Ok(claims) => if revoked {
            Err(AuthError::RevokedToken)
        } else {
            Ok(claims)
        },
        Err(_) => Err(AuthError::InvalidToken),
    }
}

/// The verdict on `token` at time `now` under `secret`, given the set of
/// revoked tokens.
pub open spec fn validate_spec(
    secret: Seq<char>,
    revoked: Set<Seq<char>>,
    token: Seq<char>,
    now: i64,
) -> Result<TokenClaims, AuthError> {
    revocation_verdict(decode_token_spec(secret, token, now), revoked.contains(token))
}

/// The token in the `Authorization` header of a request, if the header is
/// there and holds a bearer credential.
pub open spec fn bearer_spec(authorization: Option<&str>) -> Result<Seq<char>, AuthError> {
    match authorization {
        Some(value) => match bearer_of(value@) {
            Some(token) => Ok(token),
            None => Err(AuthError::MissingHeader),
        },
        None => Err(AuthError::MissingHeader),
    }
}

/// The registry of revoked tokens. It starts empty and only grows: there
/// is no way to take a token out of it.
pub struct SessionRegistry {
    revoked: StringHashSet,
}

impl View for SessionRegistry {
    type V = Set<Seq<char>>;

    closed spec fn view(&self) -> Set<Seq<char>> {
        self.revoked@
    }
}

impl SessionRegistry {
    /// A registry in which no token is revoked.
    pub fn new() -> (registry: SessionRegistry)
        ensures
            registry@ == Set::<Seq<char>>::empty(),
    {
        SessionRegistry { revoked: StringHashSet::new() }
    }

    /// Revokes `token`. Returns `true` if this call revoked it and `false`
    /// if it was revoked before.
    pub fn revoke(&mut self, token: &str) -> (fresh: bool)
        ensures
            final(self)@ == old(self)@.insert(token@),
            fresh == !old(self)@.contains(token@),
    {
        self.revoked.insert(token.to_owned())
    }

    /// Whether `token` was revoked.
    pub fn is_revoked(&self, token: &str) -> (revoked: bool)
        ensures
            revoked == self@.contains(token@),
    {
        self.revoked.contains(token)
    }

    /// The number of revoked tokens.
    pub fn len(&self) -> (count: usize)
        ensures
            count == self@.len(),
    {
        self.revoked.len()
    }
}

/// What is shared between requests.
pub struct AppState {
    /// The configuration the service was started with.
    pub config: AppConfig,
    /// The tokens that were logged out.
    pub revoked_tokens: SessionRegistry,
}

impl AppState {
    /// The set of revoked tokens.
    pub open spec fn revoked(&self) -> Set<Seq<char>> {
        self.revoked_tokens@
    }

    /// A state with the given configuration in which no token is revoked.
    pub fn new(config: AppConfig) -> (state: AppState)
        ensures
            state.config == config,
            state.revoked() == Set::<Seq<char>>::empty(),
    {
        AppState { config, revoked_tokens: SessionRegistry::new() }
    }

    /// Whether `token` was revoked.
    pub fn is_revoked(&self, token: &str) -> (revoked: bool)
        ensures
            revoked == self.revoked().contains(token@),
    {
        self.revoked_tokens.is_revoked(token)
    }

    /// Judges `token`, given what decoding made of it: the registry is
    /// consulted only for a token that decoded.
    pub fn judge_decoded(&self, token: &str, decoded: Result<TokenClaims, TokenError>) -> (res:
        Result<TokenClaims, AuthError>)
        ensures
            res == revocation_verdict(decoded, self.revoked().contains(token@)),
    {
        match decoded {
            Ok(claims) => if self.revoked_tokens.is_revoked(token) {
                Err(AuthError::RevokedToken)
            } else {
                Ok(claims)
            },
            Err(_) => Err(AuthError::InvalidToken),
        }
    }

    /// Validates `token` as of the time `now`: it must decode under the
    /// configured secret and must not have been revoked.
    pub fn validate_token_at(&self, token: &str, now: i64) -> (res: Result<TokenClaims, AuthError>)
        ensures
            res == validate_spec(self.config.jwt_secret@, self.revoked(), token@, now),
    {
        self.judge_decoded(token, decode_token_at(self.config.jwt_secret.as_str(), token, now))
    }

    /// Validates `token` as of the current time. A revoked token is turned
    /// down whatever the time, and so is one whose signature the configured
    /// secret does not accept.
    pub fn validate_token(&self, token: &str) -> (res: Result<TokenClaims, AuthError>)
        ensures
            exists|now: i64|
                0 <= now && res == #[trigger] validate_spec(
                    self.config.jwt_secret@,
                    self.revoked(),
                    token@,
                    now,
                ),
            match res {
                Ok(claims) => carries(self.config.jwt_secret@, token@, claims)
                    && !self.revoked().contains(token@),
                Err(e) => e == AuthError::InvalidToken || (e == AuthError::RevokedToken
                    && self.revoked().contains(token@)),
            },
            verified_claims(self.config.jwt_secret@, token@) is None ==> res == Err::<
                TokenClaims,
                AuthError,
            >(AuthError::InvalidToken),
    {
        let decoded = decode_token(self.config.jwt_secret.as_str(), token);
        let ghost now = choose|now: i64|
            0 <= now && decoded == #[trigger] decode_token_spec(
                self.config.jwt_secret@,
                token@,
                now,
            );
        let res = self.judge_decoded(token, decoded);
        assert(res == validate_spec(self.config.jwt_secret@, self.revoked(), token@, now));
        res
    }

    /// Revokes `token`. Returns `true` if this call revoked it and `false`
    /// if it was revoked before. Nothing else changes, and no token ever
    /// leaves the registry.
    pub fn revoke_token(&mut self, token: &str) -> (res: Result<bool, AuthError>)
        ensures
            final(self).config == old(self).config,
            final(self).revoked() == old(self).revoked().insert(token@),
            res == Ok::<bool, AuthError>(!old(self).revoked().contains(token@)),
    {
        Ok(self.revoked_tokens.revoke(token))
    }
}

/// Extracts the bearer token from the value of the `Authorization` header,
/// where the request has one.
pub fn bearer_token(authorization: Option<&str>) -> (res: Result<String, AuthError>)
    ensures
        match res {
            Ok(token) => bearer_spec(authorization) == Ok::<Seq<char>, AuthError>(token@),
            Err(e) => bearer_spec(authorization) == Err::<Seq<char>, AuthError>(e),
        },
{
    match authorization {
        Some(value) => match bearer_credentials(value) {
            Some(token) => Ok(token),
            None => Err(AuthError::MissingHeader),
        },
        None => Err(AuthError::MissingHeader),
    }
}

/// The registry after the tokens of `tokens` were revoked one after the
/// other, starting from `revoked`.
pub open spec fn revoke_all(revoked: Set<Seq<char>>, tokens: Seq<Seq<char>>) -> Set<Seq<char>>
    decreases tokens.len(),
{
    if tokens.len() == 0 {
        revoked
    } else {
        revoke_all(revoked, tokens.drop_last()).insert(tokens.last())
    }
}

/// What the revocation of `tokens[i]` returns when the tokens of `tokens`
/// are revoked one after the other, starting from `revoked`.
pub open spec fn revoke_reports(revoked: Set<Seq<char>>, tokens: Seq<Seq<char>>, i: int) -> bool {
    !revoke_all(revoked, tokens.take(i)).contains(tokens[i])
}

/// After a run of revocations the registry holds what it held before and
/// the tokens of the run, and nothing else.
pub proof fn lemma_revoke_all_contains(
    revoked: Set<Seq<char>>,
    tokens: Seq<Seq<char>>,
    token: Seq<char>,
)
    ensures
        revoke_all(revoked, tokens).contains(token) <==> revoked.contains(token)
            || tokens.contains(token),
    decreases tokens.len(),
{
    if tokens.len() > 0 {
        let earlier = tokens.drop_last();
        lemma_revoke_all_contains(revoked, earlier, token);
        if tokens.contains(token) {
            let i = choose|i: int| 0 <= i < tokens.len() && tokens[i] == token;
            if i < tokens.len() - 1 {
                assert(earlier[i] == token);
            }
        }
    }
}

/// A revoked token stays revoked, whatever is revoked after it.
pub proof fn lemma_revoked_stays_revoked(
    revoked: Set<Seq<char>>,
    tokens: Seq<Seq<char>>,
    token: Seq<char>,
)
    requires
        revoked.contains(token),
    ensures
        revoke_all(revoked, tokens).contains(token),
{
    lemma_revoke_all_contains(revoked, tokens, token);
}

/// In a run of revocations, the revocation of a token returns `true`
/// exactly if the token was not revoked before the run and does not occur
/// earlier in it. So `true` is returned at most once per token, and every
/// later revocation of that token returns `false`.
pub proof fn lemma_revoke_reports_once(revoked: Set<Seq<char>>, tokens: Seq<Seq<char>>, i: int)
    requires
        0 <= i < tokens.len(),
    ensures
        revoke_reports(revoked, tokens, i) <==> !revoked.contains(tokens[i]) && forall|j: int|
            0 <= j < i ==> tokens[j] != tokens[i],
        forall|j: int|
            i < j < tokens.len() && tokens[j] == tokens[i] ==> !revoke_reports(revoked, tokens, j),
{
    let token = tokens[i];
    lemma_revoke_all_contains(revoked, tokens.take(i), token);
    if exists|j: int| 0 <= j < i && tokens[j] == token {
        let j = choose|j: int| 0 <= j < i && tokens[j] == token;
        assert(tokens.take(i)[j] == token);
    }
    assert forall|j: int| i < j < tokens.len() && tokens[j] == tokens[i] implies !revoke_reports(
        revoked,
        tokens,
        j,
    ) by {
        lemma_revoke_all_contains(revoked, tokens.take(j), token);
        assert(tokens.take(j)[i] == token);
    }
}

/// A revoked token is never validated, whatever its signature and its
/// expiration time.
pub proof fn lemma_revoked_token_rejected(
    secret: Seq<char>,
    revoked: Set<Seq<char>>,
    token: Seq<char>,
    now: i64,
)
    requires
        revoked.contains(token),
    ensures
        validate_spec(secret, revoked, token, now) is Err,
{
}

/// A token is validated only while it decodes: from its expiration time on
/// it is turned down as invalid, revoked or not.
pub proof fn lemma_validation_follows_decoding(
    secret: Seq<char>,
    revoked: Set<Seq<char>>,
    token: Seq<char>,
    now: i64,
)
    ensures
        match validate_spec(secret, revoked, token, now) {
            Ok(claims) => decode_token_spec(secret, token, now) == Ok::<TokenClaims, TokenError>(
                claims,
            ) && !revoked.contains(token),
            Err(AuthError::InvalidToken) => decode_token_spec(secret, token, now) is Err,
            Err(AuthError::RevokedToken) => decode_token_spec(secret, token, now) is Ok
                && revoked.contains(token),
            Err(_) => false,
        },
{
}

/// A token that carries `claims` is validated to them at every time before
/// `claims.exp` for as long as it is not revoked.
pub proof fn lemma_carried_token_validates(
    secret: Seq<char>,
    revoked: Set<Seq<char>>,
    token: Seq<char>,
    claims: TokenClaims,
    now: i64,
)
    requires
        carries(secret, token, claims),
        !revoked.contains(token),
        now < claims.exp,
    ensures
        validate_spec(secret, revoked, token, now) == Ok::<TokenClaims, AuthError>(claims),
{
}

} // verus!
