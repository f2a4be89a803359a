//! Bodies of the authentication requests and of their response.

use vstd::prelude::*;
use crate::models::user::{opt_text, User, UserView};
use crate::schemas::validation::length_within;

verus! {

/// The least number of characters in each field of a registration or a
/// login.
pub const MIN_FIELD_CHARS: u64 = 1;

/// The body of a registration request.
#[derive(Debug)]
pub struct RegisterUserRequest {
    pub user: RegisterUserData,
}

/// The credentials of a new account.
#[derive(Debug)]
pub struct RegisterUserData {
    pub username: String,
    pub email: String,
    pub password: String,
}

impl RegisterUserData {
    /// No field is empty.
    pub open spec fn is_valid(&self) -> bool {
        &&& self.username@.len() >= MIN_FIELD_CHARS
        &&& self.email@.len() >= MIN_FIELD_CHARS
        &&& self.password@.len() >= MIN_FIELD_CHARS
    }

    /// Checks the field lengths.
    pub fn validate(&self) -> (ok: bool)
        ensures
            ok == self.is_valid(),
    {
        length_within(self.username.as_str(), Some(MIN_FIELD_CHARS), None) && length_within(
            self.email.as_str(),
            Some(MIN_FIELD_CHARS),
            None,
        ) && length_within(self.password.as_str(), Some(MIN_FIELD_CHARS), None)
    }
}

/// The body of a login request.
#[derive(Debug)]
pub struct LoginUserRequest {
    pub user: LoginUserData,
}

/// The credentials of a login.
#[derive(Debug)]
pub struct LoginUserData {
    pub email: String,
    pub password: String,
}

impl LoginUserData {
    /// No field is empty.
    pub open spec fn is_valid(&self) -> bool {
        &&& self.email@.len() >= MIN_FIELD_CHARS
        &&& self.password@.len() >= MIN_FIELD_CHARS
    }

    /// Checks the field lengths.
    pub fn validate(&self) -> (ok: bool)
        ensures
            ok == self.is_valid(),
    {
        length_within(self.email.as_str(), Some(MIN_FIELD_CHARS), None) && length_within(
            self.password.as_str(),
            Some(MIN_FIELD_CHARS),
            None,
        )
    }
}

/// The body of every authentication response.
#[derive(Debug)]
pub struct UserResponse {
    pub user: UserData,
}

/// What a client is told of a user: the profile and a token. The type has
/// no field for the password hash, so no response can carry it.
#[derive(Debug)]
pub struct UserData {
    pub email: String,
    pub token: String,
    pub username: String,
    pub bio: Option<String>,
    pub image: Option<String>,
}

/// The mathematical value of [`UserData`].
pub ghost struct UserDataView {
    pub email: Seq<char>,
    pub token: Seq<char>,
    pub username: Seq<char>,
    pub bio: Option<Seq<char>>,
    pub image: Option<Seq<char>>,
}

impl View for UserData {
    type V = UserDataView;

    open spec fn view(&self) -> UserDataView {
        UserDataView {
            email: self.email@,
            token: self.token@,
            username: self.username@,
            bio: opt_text(self.bio),
            image: opt_text(self.image),
        }
    }
}

impl View for UserResponse {
    type V = UserDataView;

    open spec fn view(&self) -> UserDataView {
        self.user@
    }
}

/// The outward form of a user with a token.
pub open spec fn user_data_of(user: UserView, token: Seq<char>) -> UserDataView {
    UserDataView {
        email: user.email,
        token,
        username: user.username,
        bio: user.bio,
        image: user.image,
    }
}

impl UserData {
    /// The outward form of `user` with `token`.
    pub fn from_user_with_token(user: User, token: String) -> (data: Self)
        ensures
            data@ == user_data_of(user@, token@),
    {
        UserData {
            email: user.email,
            token,
            username: user.username,
            bio: user.bio,
            image: user.image,
        }
    }
}

} // verus!
