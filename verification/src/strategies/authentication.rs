use crate::models::user::{ResponseUser, ResponseUserView};
use crate::status::{STATUS_BAD_REQUEST, STATUS_INTERNAL_SERVER_ERROR};
use crate::strategies::jwt::{decode, decoded_view, encode, jwt_claims, jwt_encoding, Decoded};
use vstd::prelude::*;
use vstd::slice::slice_to_vec;

verus! {

/// Why an authentication request was turned down.
#[derive(Clone, Copy, Debug, PartialEq, Eq, Structural)]
pub enum AuthError {
    WrongCredentials,
    MissingCredentials,
    TokenCreation,
    TokenExpired,
    InvalidToken,
}

/// What a client is told of a failure: a status and one line of text, and
/// nothing of the cause inside the service.
#[derive(Clone, Debug, PartialEq, Eq)]
pub struct ErrorResponse {
    pub status: u16,
    pub error: String,
}

pub ghost struct ErrorResponseView {
    pub status: u16,
    pub error: Seq<char>,
}

impl View for ErrorResponse {
    type V = ErrorResponseView;

    open spec fn view(&self) -> ErrorResponseView {
        ErrorResponseView { status: self.status, error: self.error@ }
    }
}

impl AuthError {
    /// The status that answers this failure. Only a failed signing is the
    /// server's fault; every other failure is the client's.
    pub open spec fn spec_status(self) -> u16 {
        match self {
            AuthError::TokenCreation => STATUS_INTERNAL_SERVER_ERROR,
            _ => STATUS_BAD_REQUEST,
        }
    }

    /// The text that answers this failure.
    pub open spec fn spec_message(self) -> Seq<char> {
        match self {
            AuthError::WrongCredentials => "Wrong credentials"@,
            AuthError::MissingCredentials => "Missing credentials"@,
            AuthError::TokenCreation => "Token creation error"@,
            AuthError::TokenExpired => "Token expired"@,
            AuthError::InvalidToken => "Invalid token"@,
        }
    }

    pub open spec fn spec_response(self) -> ErrorResponseView {
        ErrorResponseView { status: self.spec_status(), error: self.spec_message() }
    }

    pub fn status_code(&self) -> (status: u16)
        ensures
            status == self.spec_status(),
    {
        match self {
            AuthError::TokenCreation => STATUS_INTERNAL_SERVER_ERROR,
            _ => STATUS_BAD_REQUEST,
        }
    }

    pub fn error_message(&self) -> (message: &'static str)
        ensures
            message@ == self.spec_message(),
    {
        match self {
            AuthError::WrongCredentials => "Wrong credentials",
            AuthError::MissingCredentials => "Missing credentials",
            AuthError::TokenCreation => "Token creation error",
            AuthError::TokenExpired => "Token expired",
            AuthError::InvalidToken => "Invalid token",
        }
    }

    /// The fixed answer to a client for this failure.
    pub fn into_response(self) -> (response: ErrorResponse)
        ensures
            response@ == self.spec_response(),
    {
        ErrorResponse { status: self.status_code(), error: self.error_message().to_owned() }
    }
}

/// The server's signing secret. One secret both signs and checks tokens.
pub struct Keys {
    secret: Vec<u8>,
}

impl View for Keys {
    type V = Seq<u8>;

    closed spec fn view(&self) -> Seq<u8> {
        self.secret@
    }
}

impl Keys {
    pub fn new(secret: &[u8]) -> (keys: Keys)
        ensures
            keys@ == secret@,
    {
        Keys { secret: slice_to_vec(secret) }
    }

    pub fn as_bytes(&self) -> (secret: &[u8])
        ensures
            secret@ == self@,
    {
        self.secret.as_slice()
    }
}

/// What the service is configured with, read once when it starts and never
/// changed afterwards. Times are in milliseconds.
pub struct AuthConfig {
    pub keys: Keys,
    /// The subject that every token names.
    pub subject: String,
    /// The issuer tag that every token carries.
    pub company: String,
    /// How long a token stays valid after it was issued.
    pub ttl: u64,
    /// The salt of every password hash. One salt for all users is weak: two
    /// users with the same password get the same hash, and whoever learns
    /// the salt can prepare a dictionary for all of them at once. A salt per
    /// user would mend that; this service is specified with the fixed one.
    pub salt: [u8; 16],
}

pub ghost struct AuthConfigView {
    pub secret: Seq<u8>,
    pub subject: Seq<char>,
    pub company: Seq<char>,
    pub ttl: u64,
    pub salt: Seq<u8>,
}

impl View for AuthConfig {
    type V = AuthConfigView;

    open spec fn view(&self) -> AuthConfigView {
        AuthConfigView {
            secret: self.keys@,
            subject: self.subject@,
            company: self.company@,
            ttl: self.ttl,
            salt: self.salt@,
        }
    }
}

impl AuthConfigView {
    /// The claims of a token that this configuration issues at `now`.
    pub open spec fn claims_at(self, now: u64) -> ClaimsView {
        ClaimsView { sub: self.subject, com: self.company, iat: now }
    }
}

impl AuthConfig {
    pub fn new(secret: &[u8], subject: String, company: String, ttl: u64, salt: [u8; 16]) -> (config:
        AuthConfig)
        ensures
            config@ == (AuthConfigView {
                secret: secret@,
                subject: subject@,
                company: company@,
                ttl,
                salt: salt@,
            }),
    {
        AuthConfig { keys: Keys::new(secret), subject, company, ttl, salt }
    }
}

/// What a token says: whom it names, who issued it, and when, in
/// milliseconds since the epoch.
#[derive(Clone, Debug, PartialEq, Eq)]
pub struct Claims {
    pub sub: String,
    pub com: String,
    pub iat: u64,
}

pub ghost struct ClaimsView {
    pub sub: Seq<char>,
    pub com: Seq<char>,
    pub iat: u64,
}

impl View for Claims {
    type V = ClaimsView;

    open spec fn view(&self) -> ClaimsView {
        ClaimsView { sub: self.sub@, com: self.com@, iat: self.iat }
    }
}

/// The token part of a login answer.
#[derive(Clone, Debug, PartialEq, Eq)]
pub struct AuthBody {
    pub access_token: String,
    pub token_type: String,
}

pub ghost struct AuthBodyView {
    pub access_token: Seq<char>,
    pub token_type: Seq<char>,
}

impl View for AuthBody {
    type V = AuthBodyView;

    open spec fn view(&self) -> AuthBodyView {
        AuthBodyView { access_token: self.access_token@, token_type: self.token_type@ }
    }
}

impl AuthBodyView {
    /// The body that hands out `token` as a bearer token.
    pub open spec fn bearer(token: Seq<char>) -> AuthBodyView {
        AuthBodyView { access_token: token, token_type: "Bearer"@ }
    }
}

impl AuthBody {
    pub fn new(access_token: String) -> (body: AuthBody)
        ensures
            body@ == AuthBodyView::bearer(access_token@),
    {
        AuthBody { access_token, token_type: "Bearer".to_owned() }
    }
}

/// A fresh token together with the user it was issued for.
#[derive(Clone, Debug, PartialEq, Eq)]
pub struct AuthTokenResponse {
    pub auth_body: AuthBody,
    pub response_user: ResponseUser,
}

pub ghost struct AuthTokenResponseView {
    pub auth_body: AuthBodyView,
    pub response_user: ResponseUserView,
}

impl View for AuthTokenResponse {
    type V = AuthTokenResponseView;

    open spec fn view(&self) -> AuthTokenResponseView {
        AuthTokenResponseView { auth_body: self.auth_body@, response_user: self.response_user@ }
    }
}

/// `token` is what signing `claims` under `secret` yields, and it reads back
/// under the same secret as the same claims.
pub open spec fn is_token_for(token: Seq<char>, claims: ClaimsView, secret: Seq<u8>) -> bool {
    &&& jwt_encoding(claims.sub, claims.com, claims.iat, secret) == Some(token)
    &&& jwt_claims(token, secret) == Some((Some(claims.sub), Some(claims.com), Some(claims.iat)))
}

/// Whether a token issued at `iat` has run out at `now`: it lives for `ttl`
/// milliseconds, the instant `iat + ttl` being the first at which it is dead.
pub open spec fn expired(iat: u64, now: u64, ttl: u64) -> bool {
    now >= iat + ttl
}

/// The guard's answer for what the decoder made of a token. A token that
/// the decoder refused, and one that lacks any of the three claims, is
/// invalid; one that has them all is judged by its age.
pub open spec fn accepted(
    decoded: Option<(Option<Seq<char>>, Option<Seq<char>>, Option<u64>)>,
    now: u64,
    ttl: u64,
) -> Result<ClaimsView, AuthError> {
    match decoded {
        Some((Some(sub), Some(com), Some(iat))) => if expired(iat, now, ttl) {
            Err(AuthError::TokenExpired)
        } else {
            Ok(ClaimsView { sub, com, iat })
        },
        _ => Err(AuthError::InvalidToken),
    }
}

/// The guard's answer for a request: `bearer` is the token of its
/// Authorization header, `None` where it has no usable one.
pub open spec fn guarded(bearer: Option<Seq<char>>, config: AuthConfigView, now: u64) -> Result<
    ClaimsView,
    AuthError,
> {
    match bearer {
        None => Err(AuthError::InvalidToken),
        Some(token) => accepted(jwt_claims(token, config.secret), now, config.ttl),
    }
}

/// The token that a request presents, as plain text.
pub open spec fn presented(bearer: Option<&str>) -> Option<Seq<char>> {
    match bearer {
        Some(token) => Some(token@),
        None => None,
    }
}

/// Whether an executable result shows what a specified one says.
pub open spec fn shows(res: Result<Claims, AuthError>, expected: Result<ClaimsView, AuthError>) -> bool {
    match expected {
        Ok(claims) => res matches Ok(c) && c@ == claims,
        Err(e) => res matches Err(f) && f == e,
    }
}

impl AuthBody {
    /// The token part of an answer, for what signing gave: the token as a
    /// bearer token, or `TokenCreation` where signing failed.
    pub fn from_signed(signed: Result<String, jsonwebtoken::errors::Error>) -> (res: Result<
        AuthBody,
        AuthError,
    >)
        ensures
            signed matches Ok(token) ==> (res matches Ok(body) && body@ == AuthBodyView::bearer(
                token@,
            )),
            signed is Err ==> (res matches Err(e) && e == AuthError::TokenCreation),
    {
        match signed {
            Ok(token) => Ok(AuthBody::new(token)),
            Err(_) => Err(AuthError::TokenCreation),
        }
    }
}

/// Issues a token at the time `now`: the configured subject and issuer tag
/// and `now` as the time of issue, signed with the configured secret.
pub fn generate_new_token(config: &AuthConfig, now: u64) -> (res: Result<AuthBody, AuthError>)
    ensures
        res is Ok <==> jwt_encoding(config@.subject, config@.company, now, config@.secret) is Some,
        res matches Ok(body) ==> is_token_for(
            body@.access_token,
            config@.claims_at(now),
            config@.secret,
        ) && body@.token_type == "Bearer"@,
        res matches Err(e) ==> e == AuthError::TokenCreation,
{
    let signed = encode(
        config.subject.as_str(),
        config.company.as_str(),
        now,
        config.keys.as_bytes(),
    );
    AuthBody::from_signed(signed)
}

/// Issues a token at the time `now` and returns it with the user it is for.
pub fn generate_token_response(response_user: ResponseUser, config: &AuthConfig, now: u64) -> (res:
    Result<AuthTokenResponse, AuthError>)
    ensures
        res is Ok <==> jwt_encoding(config@.subject, config@.company, now, config@.secret) is Some,
        res matches Ok(answer) ==> {
            &&& answer@.response_user == response_user@
            &&& answer@.auth_body.token_type == "Bearer"@
            &&& is_token_for(answer@.auth_body.access_token, config@.claims_at(now), config@.secret)
        },
        res matches Err(e) ==> e == AuthError::TokenCreation,
{
    match generate_new_token(config, now) {
        Ok(auth_body) => Ok(AuthTokenResponse { auth_body, response_user }),
        Err(e) => Err(e),
    }
}

/// Checks the age of claims that were already decoded: `TokenExpired` from
/// the instant `iat + ttl` on, and nothing else.
pub fn validate_claims(claims: &Claims, now: u64, ttl: u64) -> (res: Result<(), AuthError>)
    ensures
        res == if expired(claims.iat, now, ttl) {
            Err::<(), AuthError>(AuthError::TokenExpired)
        } else {
            Ok::<(), AuthError>(())
        },
{
    let dead = match claims.iat.checked_add(ttl) {
        Some(end) => now >= end,
        None => false,
    };
    if dead {
        Err(AuthError::TokenExpired)
    } else {
        Ok(())
    }
}

impl Claims {
    /// The guard's answer for what the decoder made of a token: a refused
    /// token and a missing claim mean `InvalidToken`, claims that have run
    /// out mean `TokenExpired`, and live claims are handed on.
    pub fn accept(decoded: Decoded, now: u64, ttl: u64) -> (res: Result<Claims, AuthError>)
        ensures
            shows(res, accepted(decoded_view(decoded), now, ttl)),
    {
        match decoded {
            Some((Some(sub), Some(com), Some(iat))) => {
                let claims = Claims { sub, com, iat };
                match validate_claims(&claims, now, ttl) {
                    Ok(()) => Ok(claims),
                    Err(e) => Err(e),
                }
            },
            _ => Err(AuthError::InvalidToken),
        }
    }

    /// The guard in front of a protected route. `bearer` is the token of the
    /// request's Authorization header, `None` where the request has no
    /// usable one. Either the claims for the handler, or the error that
    /// answers the request in the handler's place.
    pub fn from_request_parts(bearer: Option<&str>, config: &AuthConfig, now: u64) -> (res: Result<
        Claims,
        AuthError,
    >)
        ensures
            shows(res, guarded(presented(bearer), config@, now)),
    {
        match bearer {
            None => Err(AuthError::InvalidToken),
            Some(token) => Claims::accept(decode(token, config.keys.as_bytes()), now, config.ttl),
        }
    }
}

/// A token that was issued at `claims.iat` passes the guard at every time
/// before `claims.iat + ttl`, and is refused as expired from that instant on.
pub proof fn lemma_issued_token_lifetime(
    token: Seq<char>,
    claims: ClaimsView,
    config: AuthConfigView,
    now: u64,
)
    ensures
        is_token_for(token, claims, config.secret) && now < claims.iat + config.ttl ==> guarded(
            Some(token),
            config,
            now,
        ) == Ok::<ClaimsView, AuthError>(claims),
        is_token_for(token, claims, config.secret) && now >= claims.iat + config.ttl ==> guarded(
            Some(token),
            config,
            now,
        ) == Err::<ClaimsView, AuthError>(AuthError::TokenExpired),
{
}

/// A token that the decoder refuses under the secret is answered with
/// `InvalidToken` at every time, and so is a request without a token.
pub proof fn lemma_refused_token_invalid(bearer: Option<Seq<char>>, config: AuthConfigView, now: u64)
    ensures
        bearer is None ==> guarded(bearer, config, now) == Err::<ClaimsView, AuthError>(
            AuthError::InvalidToken,
        ),
        bearer matches Some(token) && jwt_claims(token, config.secret) is None ==> guarded(
            bearer,
            config,
            now,
        ) == Err::<ClaimsView, AuthError>(AuthError::InvalidToken),
{
}

} // verus!
