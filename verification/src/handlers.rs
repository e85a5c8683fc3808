//! The decisions behind the endpoints.
//!
//! The user store is not reached from here. An endpoint that needs it is
//! split where the store is consulted: the caller performs the lookup or the
//! insert and hands the answer to the next function. Registration runs
//! `register`, then the insert, then `register_created`; a profile request
//! runs `profile`, then the lookup, then `profile_found`.
//!
//! The two endpoints that touch the registry of revoked tokens are also
//! offered in parts, so that a server can keep the lock around the registry
//! brief: `logout_token` and `profile_judged` are the parts that need the
//! state, and what comes before them (`bearer_token`, `profile_token`) does
//! not.

use vstd::prelude::*;
use crate::config::AppConfig;
use crate::password::{hash_password, hash_password_spec, hash_password_with_salt, hashed_view};
use crate::password::{password_matches, verify_password_spec, PasswordError};
use crate::response::{text_response, Body, BodyView, Response, ResponseView};
use crate::response::{STATUS_BAD_REQUEST, STATUS_INTERNAL_SERVER_ERROR, STATUS_NOT_FOUND};
use crate::response::{STATUS_OK, STATUS_UNAUTHORIZED};
use crate::state::{bearer_spec, bearer_token, lemma_revoked_stays_revoked, revoke_all};
use crate::state::{revocation_verdict, validate_spec, AppState, AuthError};
use crate::token::{carries, decode_token, decode_token_at, decode_token_spec, encode_token};
use crate::token::{encode_token_at, encode_token_spec, expiry, issued_claims, issued_view};
use crate::token::{TokenClaims, TokenError};
use crate::user::{inserted_view, lookup_view, Inserted, Lookup, Model, ModelView};

verus! {

/// The body of a login request.
#[derive(Clone, Debug)]
pub struct LoginRequest {
    pub username: String,
    pub password: String,
}

/// The body of a registration request.
#[derive(Clone, Debug)]
pub struct RegisterRequest {
    pub username: String,
    pub password: String,
}

/// A name and a password as plain text.
pub struct CredentialsView {
    pub username: Seq<char>,
    pub password: Seq<char>,
}

impl View for LoginRequest {
    type V = CredentialsView;

    open spec fn view(&self) -> CredentialsView {
        CredentialsView { username: self.username@, password: self.password@ }
    }
}

impl View for RegisterRequest {
    type V = CredentialsView;

    open spec fn view(&self) -> CredentialsView {
        CredentialsView { username: self.username@, password: self.password@ }
    }
}

/// What to do next with a registration.
#[derive(Clone, Debug, PartialEq, Eq)]
pub enum RegisterStep {
    /// Answer the request; nothing is stored.
    Respond(Response),
    /// Store a user with this name and password hash, then hand what the
    /// store returned to `register_created`.
    Insert { username: String, password_hash: String },
}

/// The next step of a registration as plain values.
pub enum RegisterStepView {
    Respond(ResponseView),
    Insert { username: Seq<char>, password_hash: Seq<char> },
}

impl View for RegisterStep {
    type V = RegisterStepView;

    open spec fn view(&self) -> RegisterStepView {
        match self {
            RegisterStep::Respond(res) => RegisterStepView::Respond(res@),
            RegisterStep::Insert { username, password_hash } => RegisterStepView::Insert {
                username: username@,
                password_hash: password_hash@,
            },
        }
    }
}

/// What to do next with a profile request.
#[derive(Clone, Debug, PartialEq, Eq)]
pub enum ProfileStep {
    /// Answer the request; the store is not consulted.
    Respond(Response),
    /// Look up the user with this id, then hand what the store returned to
    /// `profile_found`.
    FindUser { id: i32 },
}

/// The next step of a profile request as plain values.
pub enum ProfileStepView {
    Respond(ResponseView),
    FindUser { id: i32 },
}

impl View for ProfileStep {
    type V = ProfileStepView;

    open spec fn view(&self) -> ProfileStepView {
        match self {
            ProfileStep::Respond(res) => ProfileStepView::Respond(res@),
            ProfileStep::FindUser { id } => ProfileStepView::FindUser { id: *id },
        }
    }
}

/// The view of what the guard in front of protected routes returns.
pub open spec fn guarded_view(res: Result<TokenClaims, Response>) -> Result<
    TokenClaims,
    ResponseView,
> {
    match res {
        Ok(claims) => Ok(claims),
        Err(res) => Err(res@),
    }
}

/// The answer to a login with a wrong password and to one for a user that
/// does not exist: one and the same, so that it does not tell which names
/// are taken.
pub open spec fn invalid_credentials() -> ResponseView {
    text_response(STATUS_UNAUTHORIZED, "Invalid username or password."@)
}

/// The answer to a request whose token could not be issued.
pub open spec fn token_failure() -> ResponseView {
    text_response(STATUS_INTERNAL_SERVER_ERROR, "JWT encoding failed"@)
}

/// The answer to a request without a usable `Authorization` header on a
/// route that needs a valid token.
pub open spec fn missing_header() -> ResponseView {
    text_response(STATUS_UNAUTHORIZED, "Missing Authorization header"@)
}

/// The answer to a login whose credentials were accepted, given what
/// issuing the token gave.
pub open spec fn token_reply_spec(issued: Result<Seq<char>, TokenError>) -> ResponseView {
    match issued {
        Ok(token) => ResponseView { status: STATUS_OK, body: BodyView::Token { token } },
        Err(_) => token_failure(),
    }
}

/// The verdict on the credentials of a login, given what the store found
/// for the user name: the id of the user where the password verifies
/// against the stored hash, and otherwise the answer that turns the login
/// down.
pub open spec fn credentials_verdict(
    password: Seq<char>,
    found: Result<Option<ModelView>, Seq<char>>,
) -> Result<i32, ResponseView> {
    match found {
        Ok(Some(user)) => if verify_password_spec(user.password, password) is Ok {
            Ok(user.id)
        } else {
            Err(invalid_credentials())
        },
        Ok(None) => Err(invalid_credentials()),
        Err(detail) => Err(
            text_response(STATUS_INTERNAL_SERVER_ERROR, "DB error on fetching user: "@ + detail),
        ),
    }
}

/// The answer to a login at time `now`, given what the store found for the
/// user name.
pub open spec fn login_response(
    secret: Seq<char>,
    password: Seq<char>,
    found: Result<Option<ModelView>, Seq<char>>,
    now: i64,
) -> ResponseView {
    match credentials_verdict(password, found) {
        Ok(id) => token_reply_spec(encode_token_spec(secret, id, now)),
        Err(res) => res,
    }
}

/// The answer that ends a registration before anything is hashed, given
/// what the store found for the user name; `None` where the name is free.
pub open spec fn username_verdict(found: Result<Option<ModelView>, Seq<char>>) -> Option<
    ResponseView,
> {
    match found {
        Ok(Some(_)) => Some(text_response(STATUS_BAD_REQUEST, "Username already exists."@)),
        Ok(None) => None,
        Err(detail) => Some(
            text_response(
                STATUS_INTERNAL_SERVER_ERROR,
                "DB error on checking username: "@ + detail,
            ),
        ),
    }
}

/// The step that follows hashing the password of a new user.
pub open spec fn insert_step(username: Seq<char>, hashed: Result<Seq<char>, PasswordError>)
    -> RegisterStepView {
    match hashed {
        Ok(password_hash) => RegisterStepView::Insert { username, password_hash },
        Err(_) => RegisterStepView::Respond(
            text_response(STATUS_INTERNAL_SERVER_ERROR, "Password hashing failed"@),
        ),
    }
}

/// The first step of a registration, given what the store found for the
/// user name and the salt the password is hashed with.
pub open spec fn register_step(
    payload: CredentialsView,
    found: Result<Option<ModelView>, Seq<char>>,
    salt: Seq<char>,
) -> RegisterStepView {
    match username_verdict(found) {
        Some(res) => RegisterStepView::Respond(res),
        None => insert_step(payload.username, hash_password_spec(payload.password, salt)),
    }
}

/// The answer to the registration of `user`, given what issuing the token
/// gave: the token with the id and the name of the user, and nothing else
/// of the record.
pub open spec fn registered_reply_spec(user: ModelView, issued: Result<Seq<char>, TokenError>)
    -> ResponseView {
    match issued {
        Ok(token) => ResponseView {
            status: STATUS_OK,
            body: BodyView::Registered { token, id: user.id, username: user.username },
        },
        Err(_) => token_failure(),
    }
}

/// The answer that ends a registration at time `now`, given what the store
/// returned for the insert.
pub open spec fn registered_response(
    secret: Seq<char>,
    created: Result<ModelView, Seq<char>>,
    now: i64,
) -> ResponseView {
    match created {
        Ok(user) => registered_reply_spec(user, encode_token_spec(secret, user.id, now)),
        Err(detail) => text_response(
            STATUS_INTERNAL_SERVER_ERROR,
            "DB error on insert user: "@ + detail,
        ),
    }
}

/// The answer to the revocation of a token: whether this revocation was
/// the first of that token.
pub open spec fn revocation_reply(fresh: bool) -> ResponseView {
    if fresh {
        text_response(STATUS_OK, "Logged out successfully."@)
    } else {
        text_response(STATUS_BAD_REQUEST, "Token already revoked"@)
    }
}

/// The answer to a logout, given the tokens revoked before it.
pub open spec fn logout_response(revoked: Set<Seq<char>>, authorization: Option<&str>)
    -> ResponseView {
    match bearer_spec(authorization) {
        Ok(token) => revocation_reply(!revoked.contains(token)),
        Err(e) => e.response(),
    }
}

/// The tokens revoked after a logout, given those revoked before it.
pub open spec fn logout_revoked(revoked: Set<Seq<char>>, authorization: Option<&str>) -> Set<
    Seq<char>,
> {
    match bearer_spec(authorization) {
        Ok(token) => revoked.insert(token),
        Err(_) => revoked,
    }
}

/// The step that follows the validation of the token of a profile request.
pub open spec fn validated_step(validated: Result<TokenClaims, AuthError>) -> ProfileStepView {
    match validated {
        Ok(claims) => ProfileStepView::FindUser { id: claims.sub },
        Err(e) => ProfileStepView::Respond(e.response()),
    }
}

/// The first step of a profile request at time `now`.
pub open spec fn profile_step(
    secret: Seq<char>,
    revoked: Set<Seq<char>>,
    authorization: Option<&str>,
    now: i64,
) -> ProfileStepView {
    match bearer_spec(authorization) {
        Ok(token) => validated_step(validate_spec(secret, revoked, token, now)),
        Err(_) => ProfileStepView::Respond(missing_header()),
    }
}

/// The answer that ends a profile request, given what the store found for
/// the id in the token.
pub open spec fn profile_response(found: Result<Option<ModelView>, Seq<char>>) -> ResponseView {
    match found {
        Ok(Some(user)) => ResponseView {
            status: STATUS_OK,
            body: BodyView::Profile { id: user.id, username: user.username },
        },
        Ok(None) => text_response(STATUS_NOT_FOUND, "User not found"@),
        Err(detail) => text_response(
            STATUS_INTERNAL_SERVER_ERROR,
            "DB error when loading user: "@ + detail,
        ),
    }
}

/// What the guard makes of a request whose token was decoded.
pub open spec fn decoded_verdict(decoded: Result<TokenClaims, TokenError>) -> Result<
    TokenClaims,
    ResponseView,
> {
    match decoded {
        Ok(claims) => Ok(claims),
        Err(_) => Err(text_response(STATUS_UNAUTHORIZED, "Invalid or expired token"@)),
    }
}

/// What the guard makes of a request before it decodes the token: the
/// token and the secret to decode it with, or the answer that turns the
/// request down.
pub open spec fn guard_inputs(authorization: Option<&str>, config: Option<&AppConfig>) -> Result<
    (Seq<char>, Seq<char>),
    ResponseView,
> {
    match bearer_spec(authorization) {
        Ok(token) => match config {
            Some(config) => Ok((config.jwt_secret@, token)),
            None => Err(text_response(STATUS_UNAUTHORIZED, "Missing configuration"@)),
        },
        Err(_) => Err(missing_header()),
    }
}

/// What the guard in front of protected routes makes of a request at time
/// `now`: the claims of its token, or the answer that turns it down.
pub open spec fn guard_spec(
    authorization: Option<&str>,
    config: Option<&AppConfig>,
    now: i64,
) -> Result<TokenClaims, ResponseView> {
    match guard_inputs(authorization, config) {
        Ok((secret, token)) => decoded_verdict(decode_token_spec(secret, token, now)),
        Err(res) => Err(res),
    }
}

/// Answers `GET /`: a greeting.
pub fn index() -> (res: Response)
    ensures
        res@ == text_response(STATUS_OK, "Hello world!"@),
{
    Response::text(STATUS_OK, String::from_str("Hello world!"))
}

/// Judges the credentials of a login, given what the store found for the
/// user name in the request: returns the id of the user, or the answer
/// that turns the login down.
///
/// A wrong password and an unknown name get the same answer. A stored hash
/// that is corrupt counts as a wrong password.
pub fn check_credentials(login_payload: &LoginRequest, found: Lookup) -> (res: Result<
    i32,
    Response,
>)
    ensures
        match res {
            Ok(id) => credentials_verdict(login_payload.password@, lookup_view(found)) == Ok::<
                i32,
                ResponseView,
            >(id),
            Err(res) => credentials_verdict(login_payload.password@, lookup_view(found)) == Err::<
                i32,
                ResponseView,
            >(res@),
        },
{
    match found {
        Ok(Some(user)) => {
            if password_matches(user.password.as_str(), login_payload.password.as_str()) {
                Ok(user.id)
            } else {
                Err(
                    Response::text(
                        STATUS_UNAUTHORIZED,
                        String::from_str("Invalid username or password."),
                    ),
                )
            }
        },
        Ok(None) => Err(
            Response::text(STATUS_UNAUTHORIZED, String::from_str("Invalid username or password.")),
        ),
        Err(detail) => Err(
            Response::text_with_detail(
                STATUS_INTERNAL_SERVER_ERROR,
                "DB error on fetching user: ",
                detail.as_str(),
            ),
        ),
    }
}

/// Answers a login whose credentials were accepted, given what issuing the
/// token gave.
pub fn token_reply(issued: Result<String, TokenError>) -> (res: Response)
    ensures
        res@ == token_reply_spec(issued_view(issued)),
{
    match issued {
        Ok(token) => Response { status: STATUS_OK, body: Body::Token { token } },
        Err(_) => Response::text(
            STATUS_INTERNAL_SERVER_ERROR,
            String::from_str("JWT encoding failed"),
        ),
    }
}

/// Answers a login as of the time `now`, given what the store found for the
/// user name in the request.
///
/// A token that is handed out names the user found and is accepted under
/// the configured secret until it expires.
pub fn login_at(config: &AppConfig, login_payload: &LoginRequest, found: Lookup, now: i64) -> (res:
    Response)
    ensures
        res@ == login_response(
            config.jwt_secret@,
            login_payload.password@,
            lookup_view(found),
            now,
        ),
        res.body matches Body::Token { token } ==> {
            &&& found matches Ok(Some(user))
            &&& issued_claims(user.id, now) matches Some(claims)
            &&& carries(config.jwt_secret@, token@, claims)
        },
{
    match check_credentials(login_payload, found) {
        Ok(id) => token_reply(encode_token_at(config.jwt_secret.as_str(), id, now)),
        Err(res) => res,
    }
}

/// Answers a login as of the current time. The clock is read only where a
/// token is issued: a login that is turned down gets the answer that
/// `credentials_verdict` gives. One whose credentials are accepted gets a
/// token, unless the expiration time is too large for the claims.
pub fn login(config: &AppConfig, login_payload: &LoginRequest, found: Lookup) -> (res: Response)
    ensures
        exists|now: i64|
            {
                &&& 0 <= now
                &&& res@ == #[trigger] login_response(
                    config.jwt_secret@,
                    login_payload.password@,
                    lookup_view(found),
                    now,
                )
                &&& res.body matches Body::Token { token } ==> {
                    &&& found matches Ok(Some(user))
                    &&& issued_claims(user.id, now) matches Some(claims)
                    &&& carries(config.jwt_secret@, token@, claims)
                }
            },
        credentials_verdict(login_payload.password@, lookup_view(found)) matches Err(rejection)
            ==> res@ == rejection,
{
    match check_credentials(login_payload, found) {
        Ok(id) => {
            let issued = encode_token(config.jwt_secret.as_str(), id);
            let ghost now = choose|now: i64|
                {
                    &&& 0 <= now
                    &&& issued_view(issued) == #[trigger] encode_token_spec(
                        config.jwt_secret@,
                        id,
                        now,
                    )
                    &&& issued matches Ok(token) ==> issued_claims(id, now) matches Some(claims)
                        && carries(config.jwt_secret@, token@, claims)
                };
            let res = token_reply(issued);
            assert(res@ == login_response(
                config.jwt_secret@,
                login_payload.password@,
                lookup_view(found),
                now,
            ));
            res
        },
        Err(res) => {
            assert(res@ == login_response(
                config.jwt_secret@,
                login_payload.password@,
                lookup_view(found),
                0,
            ));
            res
        },
    }
}

/// Decides whether a registration may go on, given what the store found
/// for the user name: returns the answer that ends it, or `None` where the
/// name is free.
pub fn check_username(found: Lookup) -> (res: Option<Response>)
    ensures
        match res {
            Some(res) => username_verdict(lookup_view(found)) == Some(res@),
            None => username_verdict(lookup_view(found)) is None,
        },
{
    match found {
        Ok(Some(_)) => Some(
            Response::text(STATUS_BAD_REQUEST, String::from_str("Username already exists.")),
        ),
        Ok(None) => None,
        Err(detail) => Some(
            Response::text_with_detail(
                STATUS_INTERNAL_SERVER_ERROR,
                "DB error on checking username: ",
                detail.as_str(),
            ),
        ),
    }
}

/// Decides what follows the hashing of a new user's password: the insert,
/// or the answer that reports that hashing failed.
pub fn after_hashing(username: &str, hashed: Result<String, PasswordError>) -> (step:
    RegisterStep)
    ensures
        step@ == insert_step(username@, hashed_view(hashed)),
{
    match hashed {
        Ok(password_hash) => RegisterStep::Insert { username: username.to_owned(), password_hash },
        Err(_) => RegisterStep::Respond(
            Response::text(
                STATUS_INTERNAL_SERVER_ERROR,
                String::from_str("Password hashing failed"),
            ),
        ),
    }
}

/// Takes the first step of a registration with the given salt: turns the
/// request down if the name is taken or the store failed, and otherwise
/// asks for the insert of the name with the hash of the password.
///
/// The password itself is not handed on, and the hash that is to be stored
/// verifies against it.
pub fn register_with_salt(register_payload: &RegisterRequest, found: Lookup, salt: &str) -> (step:
    RegisterStep)
    ensures
        step@ == register_step(register_payload@, lookup_view(found), salt@),
        step matches RegisterStep::Insert { password_hash, .. } ==> verify_password_spec(
            password_hash@,
            register_payload.password@,
        ) is Ok,
{
    match check_username(found) {
        Some(res) => RegisterStep::Respond(res),
        None => after_hashing(
            register_payload.username.as_str(),
            hash_password_with_salt(register_payload.password.as_str(), salt),
        ),
    }
}

/// Takes the first step of a registration, hashing the password under a
/// fresh random salt. Nothing is hashed where the name is taken or the
/// store failed: the request then gets the answer that `username_verdict`
/// gives.
pub fn register(register_payload: &RegisterRequest, found: Lookup) -> (step: RegisterStep)
    ensures
        exists|salt: Seq<char>|
            step@ == #[trigger] register_step(register_payload@, lookup_view(found), salt),
        step matches RegisterStep::Insert { password_hash, .. } ==> verify_password_spec(
            password_hash@,
            register_payload.password@,
        ) is Ok,
        username_verdict(lookup_view(found)) matches Some(res) ==> step@
            == RegisterStepView::Respond(res),
{
    match check_username(found) {
        Some(res) => {
            let step = RegisterStep::Respond(res);
            assert(step@ == register_step(
                register_payload@,
                lookup_view(found),
                Seq::<char>::empty(),
            ));
            step
        },
        None => {
            let hashed = hash_password(register_payload.password.as_str());
            let ghost salt = choose|salt: Seq<char>|
                hashed_view(hashed) == #[trigger] hash_password_spec(
                    register_payload.password@,
                    salt,
                );
            let step = after_hashing(register_payload.username.as_str(), hashed);
            assert(step@ == register_step(register_payload@, lookup_view(found), salt));
            step
        },
    }
}

/// Answers the registration of the stored user `user`, given what issuing
/// the token gave: hands out the token with the id and the name of the
/// user, never the password hash.
pub fn registered_reply(user: Model, issued: Result<String, TokenError>) -> (res: Response)
    ensures
        res@ == registered_reply_spec(user@, issued_view(issued)),
{
    match issued {
        Ok(token) => Response {
            status: STATUS_OK,
            body: Body::Registered { token, id: user.id, username: user.username },
        },
        Err(_) => Response::text(
            STATUS_INTERNAL_SERVER_ERROR,
            String::from_str("JWT encoding failed"),
        ),
    }
}

/// Ends a registration as of the time `now`, given what the store returned
/// for the insert.
///
/// A token that is handed out names the new user and is accepted under the
/// configured secret until it expires.
pub fn register_created_at(config: &AppConfig, created: Inserted, now: i64) -> (res: Response)
    ensures
        res@ == registered_response(config.jwt_secret@, inserted_view(created), now),
        res.body matches Body::Registered { token, id, .. } ==> {
            &&& issued_claims(id, now) matches Some(claims)
            &&& carries(config.jwt_secret@, token@, claims)
        },
{
    match created {
        Ok(user) => {
            let issued = encode_token_at(config.jwt_secret.as_str(), user.id, now);
            registered_reply(user, issued)
        },
        Err(detail) => Response::text_with_detail(
            STATUS_INTERNAL_SERVER_ERROR,
            "DB error on insert user: ",
            detail.as_str(),
        ),
    }
}

/// Ends a registration as of the current time. The clock is read only
/// where a token is issued: a stored user gets a token, unless the
/// expiration time is too large for the claims.
pub fn register_created(config: &AppConfig, created: Inserted) -> (res: Response)
    ensures
        exists|now: i64|
            {
                &&& 0 <= now
                &&& res@ == #[trigger] registered_response(
                    config.jwt_secret@,
                    inserted_view(created),
                    now,
                )
                &&& res.body matches Body::Registered { token, id, .. } ==> {
                    &&& issued_claims(id, now) matches Some(claims)
                    &&& carries(config.jwt_secret@, token@, claims)
                }
            },
        created matches Err(detail) ==> res@ == text_response(
            STATUS_INTERNAL_SERVER_ERROR,
            "DB error on insert user: "@ + detail@,
        ),
{
    match created {
        Ok(user) => {
            let issued = encode_token(config.jwt_secret.as_str(), user.id);
            let ghost now = choose|now: i64|
                {
                    &&& 0 <= now
                    &&& issued_view(issued) == #[trigger] encode_token_spec(
                        config.jwt_secret@,
                        user.id,
                        now,
                    )
                    &&& issued matches Ok(token) ==> issued_claims(user.id, now) matches Some(
                        claims,
                    ) && carries(config.jwt_secret@, token@, claims)
                };
            let res = registered_reply(user, issued);
            assert(res@ == registered_response(config.jwt_secret@, inserted_view(created), now));
            res
        },
        Err(detail) => {
            let res = Response::text_with_detail(
                STATUS_INTERNAL_SERVER_ERROR,
                "DB error on insert user: ",
                detail.as_str(),
            );
            assert(res@ == registered_response(config.jwt_secret@, inserted_view(created), 0));
            res
        },
    }
}

/// Answers a logout whose bearer token was read: revokes the token,
/// whatever it is. Revoking a token a second time changes nothing and is
/// reported as such.
pub fn logout_token(state: &mut AppState, token: &str) -> (res: Response)
    ensures
        res@ == revocation_reply(!old(state).revoked().contains(token@)),
        final(state).revoked() == old(state).revoked().insert(token@),
        final(state).config == old(state).config,
{
    match state.revoke_token(token) {
        Ok(true) => Response::text(STATUS_OK, String::from_str("Logged out successfully.")),
        Ok(false) => Response::text(STATUS_BAD_REQUEST, String::from_str("Token already revoked")),
        Err(err) => err.error_response(),
    }
}

/// Answers a logout: reads the bearer token of the request and revokes it.
/// A request without one changes nothing.
pub fn logout(state: &mut AppState, authorization: Option<&str>) -> (res: Response)
    ensures
        res@ == logout_response(old(state).revoked(), authorization),
        final(state).revoked() == logout_revoked(old(state).revoked(), authorization),
        final(state).config == old(state).config,
{
    match bearer_token(authorization) {
        Ok(token) => logout_token(state, token.as_str()),
        Err(err) => err.error_response(),
    }
}

/// Decides what follows the validation of the token of a profile request:
/// the lookup of the user it names, or the answer that turns the request
/// down.
pub fn after_validation(validated: Result<TokenClaims, AuthError>) -> (step: ProfileStep)
    ensures
        step@ == validated_step(validated),
{
    match validated {
        Ok(claims) => ProfileStep::FindUser { id: claims.sub },
        Err(err) => ProfileStep::Respond(err.error_response()),
    }
}

/// Takes the first step of a profile request as of the time `now`:
/// validates the bearer token of the request and asks for the user it
/// names.
pub fn profile_at(state: &AppState, authorization: Option<&str>, now: i64) -> (step: ProfileStep)
    ensures
        step@ == profile_step(state.config.jwt_secret@, state.revoked(), authorization, now),
{
    match bearer_token(authorization) {
        Ok(token) => after_validation(state.validate_token_at(token.as_str(), now)),
        Err(_) => ProfileStep::Respond(
            Response::text(STATUS_UNAUTHORIZED, String::from_str("Missing Authorization header")),
        ),
    }
}

/// Reads the bearer token of a profile request and decodes it as of the
/// current time under the configured secret, without looking at the
/// registry: returns the token with what decoding made of it, or the answer
/// to a request that has no bearer token.
pub fn profile_token(config: &AppConfig, authorization: Option<&str>) -> (res: Result<
    (String, Result<TokenClaims, TokenError>),
    Response,
>)
    ensures
        match res {
            Ok((token, decoded)) => {
                &&& bearer_spec(authorization) == Ok::<Seq<char>, AuthError>(token@)
                &&& exists|now: i64|
                    0 <= now && decoded == #[trigger] decode_token_spec(
                        config.jwt_secret@,
                        token@,
                        now,
                    )
                &&& decoded matches Ok(claims) ==> carries(config.jwt_secret@, token@, claims)
            },
            Err(res) => bearer_spec(authorization) is Err && res@ == missing_header(),
        },
{
    match bearer_token(authorization) {
        Ok(token) => {
            let decoded = decode_token(config.jwt_secret.as_str(), token.as_str());
            Ok((token, decoded))
        },
        Err(_) => Err(
            Response::text(STATUS_UNAUTHORIZED, String::from_str("Missing Authorization header")),
        ),
    }
}

/// Takes the first step of a profile request whose token was decoded:
/// consults the registry and asks for the user the token names. This is
/// the only part of a profile request that needs the state.
pub fn profile_judged(state: &AppState, token: &str, decoded: Result<TokenClaims, TokenError>)
    -> (step: ProfileStep)
    ensures
        step@ == validated_step(revocation_verdict(decoded, state.revoked().contains(token@))),
{
    after_validation(state.judge_decoded(token, decoded))
}

/// Takes the first step of a profile request as of the current time. A
/// request without a bearer token and one with a revoked token are turned
/// down whatever the time.
pub fn profile(state: &AppState, authorization: Option<&str>) -> (step: ProfileStep)
    ensures
        exists|now: i64|
            0 <= now && step@ == #[trigger] profile_step(
                state.config.jwt_secret@,
                state.revoked(),
                authorization,
                now,
            ),
        match bearer_spec(authorization) {
            Ok(token) => state.revoked().contains(token) ==> (step@ matches ProfileStepView::Respond(
                res,
            ) && res.status == STATUS_UNAUTHORIZED),
            Err(_) => step@ == ProfileStepView::Respond(missing_header()),
        },
{
    match profile_token(&state.config, authorization) {
        Ok((token, decoded)) => {
            let ghost now = choose|now: i64|
                0 <= now && decoded == #[trigger] decode_token_spec(
                    state.config.jwt_secret@,
                    token@,
                    now,
                );
            let step = profile_judged(state, token.as_str(), decoded);
            assert(step@ == profile_step(
                state.config.jwt_secret@,
                state.revoked(),
                authorization,
                now,
            ));
            step
        },
        Err(res) => {
            let step = ProfileStep::Respond(res);
            assert(step@ == profile_step(
                state.config.jwt_secret@,
                state.revoked(),
                authorization,
                0,
            ));
            step
        },
    }
}

/// Ends a profile request, given what the store found for the id in the
/// token: the user's id and name, or "not found" where the user is gone
/// although the token was good.
pub fn profile_found(found: Lookup) -> (res: Response)
    ensures
        res@ == profile_response(lookup_view(found)),
{
    match found {
        Ok(Some(user)) => Response {
            status: STATUS_OK,
            body: Body::Profile { id: user.id, username: user.username },
        },
        Ok(None) => Response::text(STATUS_NOT_FOUND, String::from_str("User not found")),
        Err(detail) => Response::text_with_detail(
            STATUS_INTERNAL_SERVER_ERROR,
            "DB error when loading user: ",
            detail.as_str(),
        ),
    }
}

/// Decides what the guard makes of a request before it decodes the token:
/// returns the token of the request and the secret to decode it with, or
/// the answer that turns the request down.
pub fn guard_request<'a>(authorization: Option<&str>, config: Option<&'a AppConfig>) -> (res:
    Result<(&'a str, String), Response>)
    ensures
        match res {
            Ok((secret, token)) => guard_inputs(authorization, config) == Ok::<
                (Seq<char>, Seq<char>),
                ResponseView,
            >((secret@, token@)),
            Err(res) => guard_inputs(authorization, config) == Err::<
                (Seq<char>, Seq<char>),
                ResponseView,
            >(res@),
        },
{
    let token = match bearer_token(authorization) {
        Ok(token) => token,
        Err(_) => {
            return Err(
                Response::text(
                    STATUS_UNAUTHORIZED,
                    String::from_str("Missing Authorization header"),
                ),
            );
        },
    };
    match config {
        Some(config) => Ok((config.jwt_secret.as_str(), token)),
        None => Err(Response::text(STATUS_UNAUTHORIZED, String::from_str("Missing configuration"))),
    }
}

/// Decides what the guard makes of a request whose token was decoded: the
/// claims, or the answer that turns the request down.
pub fn after_decoding(decoded: Result<TokenClaims, TokenError>) -> (res: Result<
    TokenClaims,
    Response,
>)
    ensures
        guarded_view(res) == decoded_verdict(decoded),
{
    match decoded {
        Ok(claims) => Ok(claims),
        Err(_) => Err(
            Response::text(STATUS_UNAUTHORIZED, String::from_str("Invalid or expired token")),
        ),
    }
}

/// Guards a protected route as of the time `now`: reads the bearer token of
/// the request and decodes it under the configured secret. The registry of
/// revoked tokens is not consulted.
pub fn ensure_auth_header_at(
    authorization: Option<&str>,
    config: Option<&AppConfig>,
    now: i64,
) -> (res: Result<TokenClaims, Response>)
    ensures
        guarded_view(res) == guard_spec(authorization, config, now),
{
    match guard_request(authorization, config) {
        Ok((secret, token)) => after_decoding(decode_token_at(secret, token.as_str(), now)),
        Err(res) => Err(res),
    }
}

/// Guards a protected route as of the current time. A request without a
/// bearer token, or one that arrives where no configuration is at hand, is
/// turned down whatever the time.
pub fn ensure_auth_header(authorization: Option<&str>, config: Option<&AppConfig>) -> (res: Result<
    TokenClaims,
    Response,
>)
    ensures
        exists|now: i64|
            0 <= now && guarded_view(res) == #[trigger] guard_spec(authorization, config, now),
        guard_inputs(authorization, config) matches Err(rejection) ==> guarded_view(res) == Err::<
            TokenClaims,
            ResponseView,
        >(rejection),
{
    match guard_request(authorization, config) {
        Ok((secret, token)) => {
            let decoded = decode_token(secret, token.as_str());
            let ghost now = choose|now: i64|
                0 <= now && decoded == #[trigger] decode_token_spec(secret@, token@, now);
            let res = after_decoding(decoded);
            assert(guarded_view(res) == guard_spec(authorization, config, now));
            res
        },
        Err(rejection) => {
            let res = Err(rejection);
            assert(guarded_view(res) == guard_spec(authorization, config, 0));
            res
        },
    }
}

/// A login with a wrong password is answered exactly as a login for a name
/// that no user has.
pub proof fn lemma_login_rejections_alike(
    secret: Seq<char>,
    password: Seq<char>,
    user: ModelView,
    now: i64,
)
    requires
        verify_password_spec(user.password, password) is Err,
    ensures
        login_response(secret, password, Ok(Some(user)), now) == login_response(
            secret,
            password,
            Ok(None),
            now,
        ),
        login_response(secret, password, Ok(None), now) == invalid_credentials(),
{
}

/// A login whose credentials are accepted is answered with a token
/// wherever the expiration time fits the claims.
pub proof fn lemma_accepted_login_issues_token(
    secret: Seq<char>,
    password: Seq<char>,
    found: Result<Option<ModelView>, Seq<char>>,
    now: i64,
)
    requires
        credentials_verdict(password, found) is Ok,
        expiry(now) is Some,
    ensures
        login_response(secret, password, found, now).status == STATUS_OK,
        login_response(secret, password, found, now).body is Token,
{
}

/// A second logout with the same header revokes nothing more and is
/// answered with "Token already revoked".
pub proof fn lemma_second_logout(revoked: Set<Seq<char>>, authorization: Option<&str>)
    requires
        bearer_spec(authorization) is Ok,
    ensures
        logout_response(logout_revoked(revoked, authorization), authorization) == text_response(
            STATUS_BAD_REQUEST,
            "Token already revoked"@,
        ),
        logout_revoked(logout_revoked(revoked, authorization), authorization) == logout_revoked(
            revoked,
            authorization,
        ),
{
}

/// After a logout, a profile request with the same header is turned down as
/// unauthorized, at any time and whatever is revoked in between.
pub proof fn lemma_profile_after_logout(
    secret: Seq<char>,
    revoked: Set<Seq<char>>,
    authorization: Option<&str>,
    later: Seq<Seq<char>>,
    now: i64,
)
    requires
        bearer_spec(authorization) is Ok,
    ensures
        profile_step(
            secret,
            revoke_all(logout_revoked(revoked, authorization), later),
            authorization,
            now,
        ) matches ProfileStepView::Respond(res) && res.status == STATUS_UNAUTHORIZED,
{
    let token = bearer_spec(authorization)->Ok_0;
    lemma_revoked_stays_revoked(logout_revoked(revoked, authorization), later, token);
}

/// A profile request whose header holds a token that carries `claims` is
/// passed on to the lookup of the user they name, at every time before
/// `claims.exp` for as long as the token is not revoked.
pub proof fn lemma_carried_token_opens_profile(
    secret: Seq<char>,
    revoked: Set<Seq<char>>,
    authorization: Option<&str>,
    claims: TokenClaims,
    now: i64,
)
    requires
        bearer_spec(authorization) matches Ok(token) && carries(secret, token, claims)
            && !revoked.contains(token),
        now < claims.exp,
    ensures
        profile_step(secret, revoked, authorization, now) == (ProfileStepView::FindUser {
            id: claims.sub,
        }),
{
}

} // verus!
