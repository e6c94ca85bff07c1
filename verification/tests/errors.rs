use auth_backend::status::{
    STATUS_BAD_REQUEST, STATUS_CREATED, STATUS_INTERNAL_SERVER_ERROR, STATUS_OK,
};
use auth_backend::strategies::authentication::{AuthError, ErrorResponse};

#[test]
fn status_constants() {
    assert_eq!(STATUS_OK, 200);
    assert_eq!(STATUS_CREATED, 201);
    assert_eq!(STATUS_BAD_REQUEST, 400);
    assert_eq!(STATUS_INTERNAL_SERVER_ERROR, 500);
}

#[test]
fn wrong_credentials_response() {
    assert_eq!(AuthError::WrongCredentials.status_code(), 400);
    assert_eq!(AuthError::WrongCredentials.error_message(), "Wrong credentials");
    assert_eq!(
        AuthError::WrongCredentials.into_response(),
        ErrorResponse { status: 400, error: String::from("Wrong credentials") }
    );
}

#[test]
fn missing_credentials_response() {
    assert_eq!(AuthError::MissingCredentials.status_code(), 400);
    assert_eq!(AuthError::MissingCredentials.error_message(), "Missing credentials");
    assert_eq!(
        AuthError::MissingCredentials.into_response(),
        ErrorResponse { status: 400, error: String::from("Missing credentials") }
    );
}

#[test]
fn token_creation_response() {
    assert_eq!(AuthError::TokenCreation.status_code(), 500);
    assert_eq!(AuthError::TokenCreation.error_message(), "Token creation error");
    assert_eq!(
        AuthError::TokenCreation.into_response(),
        ErrorResponse { status: 500, error: String::from("Token creation error") }
    );
}

#[test]
fn token_expired_response() {
    assert_eq!(AuthError::TokenExpired.status_code(), 400);
    assert_eq!(AuthError::TokenExpired.error_message(), "Token expired");
    assert_eq!(
        AuthError::TokenExpired.into_response(),
        ErrorResponse { status: 400, error: String::from("Token expired") }
    );
}

#[test]
fn invalid_token_response() {
    assert_eq!(AuthError::InvalidToken.status_code(), 400);
    assert_eq!(AuthError::InvalidToken.error_message(), "Invalid token");
    assert_eq!(
        AuthError::InvalidToken.into_response(),
        ErrorResponse { status: 400, error: String::from("Invalid token") }
    );
}

#[test]
fn only_a_failed_signing_is_the_servers_fault() {
    let all = [
        AuthError::WrongCredentials,
        AuthError::MissingCredentials,
        AuthError::TokenCreation,
        AuthError::TokenExpired,
        AuthError::InvalidToken,
    ];
    for e in all {
        let response = e.into_response();
        assert_eq!(response.status, e.status_code());
        assert_eq!(response.error, e.error_message());
        assert_eq!(response.status >= 500, e == AuthError::TokenCreation);
    }
}
