use crate::controllers::users_controller::registered;
use crate::crypto::{bcrypt_verdict, verify_password, HashError};
use crate::models::user::{
    CreateUserView,
    LoginUser,
    LoginUserView,
    ResponseUser,
    ResponseUserView,
    User,
    UserView,
};
use crate::status::{STATUS_CREATED, STATUS_OK};
use crate::strategies::authentication::{
    generate_new_token,
    is_token_for,
    AuthBody,
    AuthBodyView,
    AuthConfig,
    AuthConfigView,
    AuthError,
    Claims,
};
use crate::strategies::jwt::jwt_encoding;
use vstd::prelude::*;

verus! {

/// The answer to a successful login: a fresh token and the user it is for.
#[derive(Clone, Debug, PartialEq, Eq)]
pub struct LoginResponse {
    pub auth: AuthBody,
    pub user: ResponseUser,
}

pub ghost struct LoginResponseView {
    pub auth: AuthBodyView,
    pub user: ResponseUserView,
}

impl View for LoginResponse {
    type V = LoginResponseView;

    open spec fn view(&self) -> LoginResponseView {
        LoginResponseView { auth: self.auth@, user: self.user@ }
    }
}

/// Whether a login request lacks its username or its password.
pub open spec fn missing(payload: LoginUserView) -> bool {
    payload.username.len() == 0 || payload.password.len() == 0
}

/// The answer to a login request. `found` is the stored user of that name,
/// `None` where the datastore has none or could not be asked. An unknown
/// user and a password that is not accepted give the same error.
pub open spec fn login_outcome(
    payload: LoginUserView,
    found: Option<UserView>,
    config: AuthConfigView,
    now: u64,
) -> Result<(u16, LoginResponseView), AuthError> {
    if missing(payload) {
        Err(AuthError::MissingCredentials)
    } else {
        match found {
            None => Err(AuthError::WrongCredentials),
            Some(user) => if bcrypt_verdict(payload.password, user.password) != Some(true) {
                Err(AuthError::WrongCredentials)
            } else {
                match jwt_encoding(config.subject, config.company, now, config.secret) {
                    None => Err(AuthError::TokenCreation),
                    Some(token) => Ok(
                        (
                            STATUS_CREATED,
                            LoginResponseView {
                                auth: AuthBodyView::bearer(token),
                                user: user.public(),
                            },
                        ),
                    ),
                }
            },
        }
    }
}

/// What the datastore gave for a username, as plain values.
pub open spec fn looked_up(found: Option<User>) -> Option<UserView> {
    match found {
        Some(user) => Some(user@),
        None => None,
    }
}

/// Whether an executable answer shows what a specified one says.
pub open spec fn shows(
    res: Result<(u16, LoginResponse), AuthError>,
    expected: Result<(u16, LoginResponseView), AuthError>,
) -> bool {
    match expected {
        Ok(answer) => res matches Ok(r) && r.0 == answer.0 && r.1@ == answer.1,
        Err(e) => res matches Err(f) && f == e,
    }
}

/// The check that comes before any datastore access: a request without a
/// username or without a password is turned down at once.
pub fn check_credentials(payload: &LoginUser) -> (res: Result<(), AuthError>)
    ensures
        res == if missing(payload@) {
            Err::<(), AuthError>(AuthError::MissingCredentials)
        } else {
            Ok::<(), AuthError>(())
        },
{
    if payload.username.as_str().is_empty() || payload.password.as_str().is_empty() {
        Err(AuthError::MissingCredentials)
    } else {
        Ok(())
    }
}

/// Whether a stored user may log in, for what the verifier answered. Only an
/// accepted password lets the user through. A refused password and a stored
/// hash that cannot be read are both answered with `WrongCredentials`, so
/// that nothing of the store's state reaches the client.
pub fn let_in(user: User, check: Result<bool, HashError>) -> (res: Result<ResponseUser, AuthError>)
    ensures
        check == Ok::<bool, HashError>(true) ==> (res matches Ok(shown) && shown@
            == user@.public()),
        check != Ok::<bool, HashError>(true) ==> (res matches Err(e) && e
            == AuthError::WrongCredentials),
{
    match check {
        Ok(true) => Ok(ResponseUser::from_user(user)),
        _ => Err(AuthError::WrongCredentials),
    }
}

/// Answers a login request at the time `now`. `found` is the stored user
/// with the request's username, `None` where there is none or the datastore
/// failed. A token is signed only for an accepted password.
pub fn login_user(payload: LoginUser, found: Option<User>, config: &AuthConfig, now: u64) -> (res:
    Result<(u16, LoginResponse), AuthError>)
    ensures
        shows(res, login_outcome(payload@, looked_up(found), config@, now)),
        res matches Ok(answer) ==> is_token_for(
            answer.1@.auth.access_token,
            config@.claims_at(now),
            config@.secret,
        ),
{
    if let Err(e) = check_credentials(&payload) {
        return Err(e);
    }
    let user = match found {
        None => { return Err(AuthError::WrongCredentials); },
        Some(user) => user,
    };
    let check = verify_password(payload.password.as_str(), user.password.as_str());
    let shown = match let_in(user, check) {
        Err(e) => { return Err(e); },
        Ok(shown) => shown,
    };
    match generate_new_token(config, now) {
        Err(e) => Err(e),
        Ok(auth) => Ok((STATUS_CREATED, LoginResponse { auth, user: shown })),
    }
}

/// The handler behind the guard: it runs only with claims that passed, and
/// answers with 200 and a fixed line.
pub fn protected(_claims: &Claims) -> (res: Result<(u16, String), AuthError>)
    ensures
        res matches Ok(answer) && answer.0 == STATUS_OK && answer.1@
            == "Welcome to the protected area :)"@,
{
    Ok((STATUS_OK, "Welcome to the protected area :)".to_owned()))
}

/// A login without a username or without a password is answered with
/// `MissingCredentials`, whatever the datastore holds: it is never asked.
pub proof fn lemma_missing_credentials_need_no_lookup(
    payload: LoginUserView,
    found: Option<UserView>,
    config: AuthConfigView,
    now: u64,
)
    ensures
        missing(payload) ==> login_outcome(payload, found, config, now) == Err::<
            (u16, LoginResponseView),
            AuthError,
        >(AuthError::MissingCredentials),
{
}

/// After a registration, a login with the same username and password is let
/// through and answered with a token, provided that signing gives one; a
/// login with another password is answered with `WrongCredentials`, unless
/// bcrypt cannot tell that password from the registered one.
pub proof fn lemma_login_after_create(
    created: CreateUserView,
    stored: UserView,
    attempt: LoginUserView,
    config: AuthConfigView,
    now: u64,
)
    ensures
        registered(stored, created, config.salt) && !missing(attempt) && attempt.username
            == created.username && attempt.password == created.password ==> login_outcome(
            attempt,
            Some(stored),
            config,
            now,
        ) == match jwt_encoding(config.subject, config.company, now, config.secret) {
            Some(token) => Ok::<(u16, LoginResponseView), AuthError>(
                (
                    STATUS_CREATED,
                    LoginResponseView { auth: AuthBodyView::bearer(token), user: stored.public() },
                ),
            ),
            None => Err::<(u16, LoginResponseView), AuthError>(AuthError::TokenCreation),
        },
        registered(stored, created, config.salt) && !missing(attempt) && attempt.username
            == created.username && attempt.password != created.password && bcrypt_verdict(
            attempt.password,
            stored.password,
        ) != Some(true) ==> login_outcome(attempt, Some(stored), config, now) == Err::<
            (u16, LoginResponseView),
            AuthError,
        >(AuthError::WrongCredentials),
{
}

/// The answer to a login shows nothing of the stored hash: two stored users
/// with the same public part, whose hashes both accept the password, are
/// answered alike.
pub proof fn lemma_answer_hides_the_hash(
    attempt: LoginUserView,
    one: UserView,
    other: UserView,
    config: AuthConfigView,
    now: u64,
)
    ensures
        one.public() == other.public() && bcrypt_verdict(attempt.password, one.password) == Some(
            true,
        ) && bcrypt_verdict(attempt.password, other.password) == Some(true) ==> login_outcome(
            attempt,
            Some(one),
            config,
            now,
        ) == login_outcome(attempt, Some(other), config, now),
{
}

} // verus!
