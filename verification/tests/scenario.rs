use auth_backend::controllers::auth_controller::{check_credentials, login_user, protected};
use auth_backend::controllers::users_controller::{create_user, create_user_next, CreateUserStep, StoreEvent};
use auth_backend::models::user::{CreateUser, LoginUser, ResponseUser, User};
use auth_backend::strategies::authentication::{AuthConfig, AuthError, Claims};

#[test]
fn alice_registers_logs_in_and_calls_the_protected_route() {
    let service = AuthConfig::new(
        b"a signing secret",
        String::from("auth"),
        String::from("ACME"),
        3_600_000,
        *b"0123456789abcdef",
    );
    let uuid = "5f2b6c1e-8a77-4f0e-9f57-3d7a1f0c9b42";

    let register = CreateUser {
        username: String::from("alice"),
        password: String::from("hunter2"),
        email: String::from("a@x.com"),
    };
    let new_user = match create_user(register, &service) {
        CreateUserStep::Insert(new_user) => new_user,
        other => panic!("unexpected step {:?}", other),
    };
    assert_eq!(create_user_next(StoreEvent::Inserted(1)), CreateUserStep::Fetch(1));
    let stored = User {
        id: 1,
        uuid: String::from(uuid),
        username: new_user.username,
        password: new_user.password,
        email: new_user.email,
    };
    let alice = ResponseUser {
        uuid: String::from(uuid),
        username: String::from("alice"),
        email: String::from("a@x.com"),
    };
    assert_eq!(
        create_user_next(StoreEvent::Fetched(stored.clone())),
        CreateUserStep::Respond(201, alice.clone())
    );

    let attempt = LoginUser { username: String::from("alice"), password: String::from("hunter2") };
    assert_eq!(check_credentials(&attempt), Ok(()));
    let issued_at = 1_700_000_000_000;
    let (status, answer) = login_user(attempt, Some(stored), &service, issued_at).unwrap();
    assert_eq!(status, 201);
    assert_eq!(answer.auth.token_type, "Bearer");
    assert_eq!(answer.user, alice);

    let claims =
        Claims::from_request_parts(Some(&answer.auth.access_token), &service, issued_at + 5_000)
            .unwrap();
    assert_eq!(protected(&claims), Ok((200, String::from("Welcome to the protected area :)"))));

    let refused = Claims::from_request_parts(None, &service, issued_at + 5_000);
    assert_eq!(refused, Err(AuthError::InvalidToken));
    let response = AuthError::InvalidToken.into_response();
    assert_eq!(response.status, 400);
    assert_eq!(response.error, "Invalid token");
}
