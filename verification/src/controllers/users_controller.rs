use crate::crypto::{hash_password, is_hash_of};
use crate::models::user::{CreateUser, CreateUserView, ResponseUser, ResponseUserView, User, UserView};
use crate::status::{STATUS_BAD_REQUEST, STATUS_CREATED};
use crate::strategies::authentication::AuthConfig;
use vstd::prelude::*;

verus! {

/// A user ready to be stored: the password has given way to its hash.
#[derive(Clone, Debug, PartialEq, Eq)]
pub struct NewUser {
    pub username: String,
    pub password: String,
    pub email: String,
}

pub ghost struct NewUserView {
    pub username: Seq<char>,
    pub password: Seq<char>,
    pub email: Seq<char>,
}

impl View for NewUser {
    type V = NewUserView;

    open spec fn view(&self) -> NewUserView {
        NewUserView { username: self.username@, password: self.password@, email: self.email@ }
    }
}

/// What the datastore reported back to a registration.
#[derive(Clone, Debug, PartialEq, Eq)]
pub enum StoreEvent {
    /// The user was stored under this id.
    Inserted(i32),
    /// The stored user was read back.
    Fetched(User),
    /// The datastore refused or failed: the username is taken, or the store
    /// cannot be reached.
    Failed,
}

/// What a registration does next.
#[derive(Clone, Debug, PartialEq, Eq)]
pub enum CreateUserStep {
    /// Store this user.
    Insert(NewUser),
    /// Read the user with this id back.
    Fetch(i32),
    /// Answer the request with this status and this user.
    Respond(u16, ResponseUser),
}

pub ghost enum StoreEventView {
    Inserted(i32),
    Fetched(UserView),
    Failed,
}

pub ghost enum CreateUserStepView {
    Insert(NewUserView),
    Fetch(i32),
    Respond(u16, ResponseUserView),
}

impl View for StoreEvent {
    type V = StoreEventView;

    open spec fn view(&self) -> StoreEventView {
        match self {
            StoreEvent::Inserted(id) => StoreEventView::Inserted(*id),
            StoreEvent::Fetched(user) => StoreEventView::Fetched(user@),
            StoreEvent::Failed => StoreEventView::Failed,
        }
    }
}

impl View for CreateUserStep {
    type V = CreateUserStepView;

    open spec fn view(&self) -> CreateUserStepView {
        match self {
            CreateUserStep::Insert(user) => CreateUserStepView::Insert(user@),
            CreateUserStep::Fetch(id) => CreateUserStepView::Fetch(*id),
            CreateUserStep::Respond(status, user) => CreateUserStepView::Respond(*status, user@),
        }
    }
}

/// `stored` is what the datastore holds after registering `payload` under
/// `salt`: the same name and address, and the hash of the password in place
/// of the password. The datastore alone chooses the two identifiers.
pub open spec fn registered(stored: UserView, payload: CreateUserView, salt: Seq<u8>) -> bool {
    &&& stored.username == payload.username
    &&& stored.email == payload.email
    &&& is_hash_of(stored.password, payload.password, salt)
}

/// The step that follows a report of the datastore. A stored user is read
/// back; a user read back is shown with 201; every failure is answered with
/// 400 and the placeholder user.
pub open spec fn step_after(event: StoreEventView) -> CreateUserStepView {
    match event {
        StoreEventView::Inserted(id) => CreateUserStepView::Fetch(id),
        StoreEventView::Fetched(user) => CreateUserStepView::Respond(STATUS_CREATED, user.public()),
        StoreEventView::Failed => CreateUserStepView::Respond(
            STATUS_BAD_REQUEST,
            ResponseUserView::placeholder(),
        ),
    }
}

/// The first step of a registration: hash the password under the configured
/// salt, and ask the datastore to store the user with that hash.
pub fn create_user(payload: CreateUser, config: &AuthConfig) -> (step: CreateUserStep)
    ensures
        step@ matches CreateUserStepView::Insert(user) && user.username == payload@.username
            && user.email == payload@.email && is_hash_of(
            user.password,
            payload@.password,
            config@.salt,
        ),
{
    let password = hash_password(payload.password.as_str(), &config.salt);
    CreateUserStep::Insert(NewUser { username: payload.username, password, email: payload.email })
}

/// Every further step of a registration, from what the datastore reported.
pub fn create_user_next(event: StoreEvent) -> (step: CreateUserStep)
    ensures
        step@ == step_after(event@),
{
    match event {
        StoreEvent::Inserted(id) => CreateUserStep::Fetch(id),
        StoreEvent::Fetched(user) => CreateUserStep::Respond(
            STATUS_CREATED,
            ResponseUser::from_user(user),
        ),
        StoreEvent::Failed => CreateUserStep::Respond(STATUS_BAD_REQUEST, ResponseUser::empty()),
    }
}

} // verus!
