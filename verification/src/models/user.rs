use vstd::prelude::*;

verus! {

/// A user as the datastore holds it. `password` is the salted hash, never
/// the plaintext.
#[derive(Clone, Debug, PartialEq, Eq)]
pub struct User {
    pub id: i32,
    pub uuid: String,
    pub username: String,
    pub password: String,
    pub email: String,
}

/// The body of a registration request.
#[derive(Clone, Debug, PartialEq, Eq)]
pub struct CreateUser {
    pub username: String,
    pub password: String,
    pub email: String,
}

/// The body of a login request.
#[derive(Clone, Debug, PartialEq, Eq)]
pub struct LoginUser {
    pub username: String,
    pub password: String,
}

/// What of a user may leave the service: no numeric id and no password hash.
#[derive(Clone, Debug, PartialEq, Eq)]
pub struct ResponseUser {
    pub uuid: String,
    pub username: String,
    pub email: String,
}

pub ghost struct UserView {
    pub id: i32,
    pub uuid: Seq<char>,
    pub username: Seq<char>,
    pub password: Seq<char>,
    pub email: Seq<char>,
}

pub ghost struct CreateUserView {
    pub username: Seq<char>,
    pub password: Seq<char>,
    pub email: Seq<char>,
}

pub ghost struct LoginUserView {
    pub username: Seq<char>,
    pub password: Seq<char>,
}

pub ghost struct ResponseUserView {
    pub uuid: Seq<char>,
    pub username: Seq<char>,
    pub email: Seq<char>,
}

impl View for User {
    type V = UserView;

    open spec fn view(&self) -> UserView {
        UserView {
            id: self.id,
            uuid: self.uuid@,
            username: self.username@,
            password: self.password@,
            email: self.email@,
        }
    }
}

impl View for CreateUser {
    type V = CreateUserView;

    open spec fn view(&self) -> CreateUserView {
        CreateUserView {
            username: self.username@,
            password: self.password@,
            email: self.email@,
        }
    }
}

impl View for LoginUser {
    type V = LoginUserView;

    open spec fn view(&self) -> LoginUserView {
        LoginUserView { username: self.username@, password: self.password@ }
    }
}

impl View for ResponseUser {
    type V = ResponseUserView;

    open spec fn view(&self) -> ResponseUserView {
        ResponseUserView { uuid: self.uuid@, username: self.username@, email: self.email@ }
    }
}

impl UserView {
    /// The part of a stored user that may be shown.
    pub open spec fn public(self) -> ResponseUserView {
        ResponseUserView { uuid: self.uuid, username: self.username, email: self.email }
    }
}

impl ResponseUserView {
    /// The placeholder that answers a failed registration: every field empty.
    pub open spec fn placeholder() -> ResponseUserView {
        ResponseUserView { uuid: Seq::empty(), username: Seq::empty(), email: Seq::empty() }
    }
}

impl ResponseUser {
    /// Keeps the public fields of a stored user and drops the rest.
    pub fn from_user(user: User) -> (shown: ResponseUser)
        ensures
            shown@ == user@.public(),
    {
        ResponseUser { uuid: user.uuid, username: user.username, email: user.email }
    }

    /// The placeholder user, with every field empty.
    pub fn empty() -> (shown: ResponseUser)
        ensures
            shown@ == ResponseUserView::placeholder(),
    {
        ResponseUser { uuid: String::new(), username: String::new(), email: String::new() }
    }
}

} // verus!
