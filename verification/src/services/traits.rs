//! The contracts of the directory, of the note service and of the
//! authority.

use vstd::prelude::*;
use vstd::std_specs::convert::FromSpecImpl;
use crate::models::note::Note;
use crate::models::user::{opt_str, User, UserView};
use crate::password::{is_hash_at, password_matches};
use crate::repositories::traits::{
    create_note_post, create_post, created_note_view, created_view, delete_note_post,
    email_taken, find_all_notes_post, find_by_email_post, find_by_id_post,
    find_by_username_post, find_note_post, found_note_view, found_notes_view, found_view,
    id_taken, is_new_account, update_note_post, update_post, username_taken, NoteRecords,
    StoreError, UserRecords,
};
use crate::token::{is_token_for, jwt_claims, signed_token, subject_at, MAX_ISSUE_TIME};

verus! {

/// A directory of users: the store's operations under their business
/// names, with the store's contract.
pub trait UserServiceTrait {
    /// The records held, oldest first.
    spec fn users(&self) -> UserRecords;

    /// Whether the directory answers every request.
    spec fn reliable(&self) -> bool;

    /// Adds a record for a new account.
    fn create_user(&mut self, username: &str, email: &str, password_hash: &str) -> (res: Result<
        User,
        StoreError,
    >)
        ensures
            create_post(
                old(self).users(),
                old(self).reliable(),
                username@,
                email@,
                password_hash@,
                created_view(res),
                final(self).users(),
            ),
            final(self).reliable() == old(self).reliable(),
    ;

    /// Looks a user up by id.
    fn find_user_by_id(&self, id: u128) -> (res: Result<Option<User>, StoreError>)
        ensures
            find_by_id_post(self.users(), self.reliable(), id, found_view(res)),
    ;

    /// Looks a user up by email.
    fn find_user_by_email(&self, email: &str) -> (res: Result<Option<User>, StoreError>)
        ensures
            find_by_email_post(self.users(), self.reliable(), email@, found_view(res)),
    ;

    /// Looks a user up by username.
    fn find_user_by_username(&self, username: &str) -> (res: Result<Option<User>, StoreError>)
        ensures
            find_by_username_post(self.users(), self.reliable(), username@, found_view(res)),
    ;

    /// Changes the fields that are given and leaves the others as they are.
    fn update_user(
        &mut self,
        id: u128,
        username: Option<&str>,
        email: Option<&str>,
        bio: Option<&str>,
        image: Option<&str>,
    ) -> (res: Result<Option<User>, StoreError>)
        ensures
            update_post(
                old(self).users(),
                old(self).reliable(),
                id,
                opt_str(username),
                opt_str(email),
                opt_str(bio),
                opt_str(image),
                found_view(res),
                final(self).users(),
            ),
            final(self).reliable() == old(self).reliable(),
    ;
}

/// Why the authority refused a request.
#[derive(Debug, Clone, Copy, PartialEq, Eq, Structural)]
pub enum AuthError {
    /// No account has this email.
    UserNotFound,
    /// The password does not match the stored hash.
    InvalidPassword,
    /// The email or the username is already in use.
    UserAlreadyExists,
    /// The store failed.
    DatabaseError(StoreError),
    /// The password hasher failed.
    PasswordHashError,
    /// The token signer failed.
    TokenGenerationError,
    /// The token's signature does not match, it is malformed, it has
    /// expired, or its subject is no user id.
    TokenValidationError,
}

impl From<StoreError> for AuthError {
    /// A collision reported by the store is the authority's
    /// `UserAlreadyExists`; any other store failure is passed on.
    fn from(err: StoreError) -> (res: Self) {
        match err {
            StoreError::AlreadyExists => AuthError::UserAlreadyExists,
            StoreError::Unavailable => AuthError::DatabaseError(StoreError::Unavailable),
        }
    }
}

impl FromSpecImpl<StoreError> for AuthError {
    open spec fn obeys_from_spec() -> bool {
        true
    }

    open spec fn from_spec(err: StoreError) -> Self {
        match err {
            StoreError::AlreadyExists => AuthError::UserAlreadyExists,
            StoreError::Unavailable => AuthError::DatabaseError(StoreError::Unavailable),
        }
    }
}

/// The value of an authority's answer: the user and the token as values.
pub open spec fn session_view(res: Result<(User, String), AuthError>) -> Result<
    (UserView, Seq<char>),
    AuthError,
> {
    match res {
        Ok((u, t)) => Ok((u@, t@)),
        Err(e) => Err(e),
    }
}

/// `u` is the account that registration creates from these credentials
/// at the work factor `cost`: what is stored is a bcrypt hash made at that
/// work factor, and one that the password verifies against.
pub open spec fn is_registered_account(
    u: UserView,
    username: Seq<char>,
    email: Seq<char>,
    password: Seq<char>,
    cost: u32,
) -> bool {
    &&& is_new_account(u, username, email, u.password_hash)
    &&& password_matches(password, u.password_hash) == Some(true)
    &&& is_hash_at(u.password_hash, cost)
}

/// Some account has this email and a hash that `password` verifies
/// against, and the signer gives no token for it at `now`.
pub open spec fn account_unsigned(
    users: Seq<UserView>,
    email: Seq<char>,
    password: Seq<char>,
    secret: Seq<char>,
    now: u64,
) -> bool {
    exists|i: int|
        0 <= i < users.len() && (#[trigger] users[i]).email == email && password_matches(
            password,
            users[i].password_hash,
        ) == Some(true) && signed_token(users[i].id, now, secret) is None
}

/// The outcome of storing an account under the hash `hash` and issuing its
/// first token at `now`: what registration does once the password is
/// hashed. A failure of the signer comes after the account was stored: the
/// account then stays.
pub open spec fn enroll_post(
    pre: Seq<UserView>,
    reliable: bool,
    secret: Seq<char>,
    username: Seq<char>,
    email: Seq<char>,
    hash: Seq<char>,
    now: u64,
    res: Result<(UserView, Seq<char>), AuthError>,
    post: Seq<UserView>,
) -> bool {
    match res {
        Ok((u, t)) => {
            &&& !email_taken(pre, email)
            &&& !username_taken(pre, username)
            &&& !id_taken(pre, u.id)
            &&& u.id != 0
            &&& is_new_account(u, username, email, hash)
            &&& post == pre.push(u)
            &&& is_token_for(t, secret, u.id, now)
        },
        Err(AuthError::UserAlreadyExists) => {
            &&& email_taken(pre, email) || username_taken(pre, username)
            &&& post == pre
        },
        Err(AuthError::DatabaseError(e)) => {
            &&& !reliable
            &&& e == StoreError::Unavailable
            &&& post == pre
        },
        Err(AuthError::TokenGenerationError) => {
            &&& !email_taken(pre, email)
            &&& !username_taken(pre, username)
            &&& post.len() == pre.len() + 1
            &&& post == pre.push(post.last())
            &&& !id_taken(pre, post.last().id)
            &&& post.last().id != 0
            &&& is_new_account(post.last(), username, email, hash)
            &&& signed_token(post.last().id, now, secret) is None
        },
        Err(_) => false,
    }
}

/// Some account has this email, and checking `password` against its hash
/// gives `verdict`.
pub open spec fn account_answers(
    users: Seq<UserView>,
    email: Seq<char>,
    password: Seq<char>,
    verdict: Option<bool>,
) -> bool {
    exists|i: int|
        0 <= i < users.len() && (#[trigger] users[i]).email == email && password_matches(
            password,
            users[i].password_hash,
        ) == verdict
}

/// The outcome of a registration at `now`, as a relation between the
/// records before, the arguments, the result and the records after.
///
/// A failure of the hasher stores nothing. A failure of the signer comes
/// after the account was stored: the account then stays, and the error
/// comes only where the signer gives no token for the new id.
pub open spec fn register_post(
    pre: Seq<UserView>,
    reliable: bool,
    secret: Seq<char>,
    cost: u32,
    username: Seq<char>,
    email: Seq<char>,
    password: Seq<char>,
    now: u64,
    res: Result<(UserView, Seq<char>), AuthError>,
    post: Seq<UserView>,
) -> bool {
    match res {
        Ok((u, t)) => {
            &&& !email_taken(pre, email)
            &&& !username_taken(pre, username)
            &&& !id_taken(pre, u.id)
            &&& u.id != 0
            &&& is_registered_account(u, username, email, password, cost)
            &&& post == pre.push(u)
            &&& is_token_for(t, secret, u.id, now)
        },
        Err(AuthError::UserAlreadyExists) => {
            &&& email_taken(pre, email) || username_taken(pre, username)
            &&& post == pre
        },
        Err(AuthError::DatabaseError(e)) => {
            &&& !reliable
            &&& e == StoreError::Unavailable
            &&& post == pre
        },
        Err(AuthError::PasswordHashError) => {
            &&& !email_taken(pre, email)
            &&& !username_taken(pre, username)
            &&& post == pre
        },
        Err(AuthError::TokenGenerationError) => {
            &&& !email_taken(pre, email)
            &&& !username_taken(pre, username)
            &&& post.len() == pre.len() + 1
            &&& post == pre.push(post.last())
            &&& !id_taken(pre, post.last().id)
            &&& post.last().id != 0
            &&& is_registered_account(post.last(), username, email, password, cost)
            &&& signed_token(post.last().id, now, secret) is None
        },
        Err(_) => false,
    }
}

/// The outcome of a login at `now`. A `TokenGenerationError` comes only
/// after the password was accepted, and only where the signer gives no
/// token.
pub open spec fn login_post(
    users: Seq<UserView>,
    reliable: bool,
    secret: Seq<char>,
    email: Seq<char>,
    password: Seq<char>,
    now: u64,
    res: Result<(UserView, Seq<char>), AuthError>,
) -> bool {
    match res {
        Ok((u, t)) => {
            &&& users.contains(u)
            &&& u.email == email
            &&& password_matches(password, u.password_hash) == Some(true)
            &&& is_token_for(t, secret, u.id, now)
        },
        Err(AuthError::UserNotFound) => !email_taken(users, email),
        Err(AuthError::InvalidPassword) => account_answers(users, email, password, Some(false)),
        Err(AuthError::PasswordHashError) => account_answers(users, email, password, None),
        Err(AuthError::TokenGenerationError) => account_unsigned(
            users,
            email,
            password,
            secret,
            now,
        ),
        Err(AuthError::DatabaseError(e)) => !reliable && e == StoreError::Unavailable,
        Err(_) => false,
    }
}

/// The outcome of issuing a fresh token at `now` to a user who is already
/// authenticated: the user with the signer's token, or
/// `TokenGenerationError` where the signer gives none.
pub open spec fn refresh_post(
    secret: Seq<char>,
    user: UserView,
    now: u64,
    res: Result<(UserView, Seq<char>), AuthError>,
) -> bool {
    match res {
        Ok((u, t)) => u == user && is_token_for(t, secret, user.id, now),
        Err(e) => e == AuthError::TokenGenerationError && signed_token(user.id, now, secret)
            is None,
    }
}

/// Whom a token identifies at `now` under `secret`.
pub open spec fn validate_at(token: Seq<char>, secret: Seq<char>, now: u64) -> Result<
    u128,
    AuthError,
> {
    subject_at(jwt_claims(token, secret), now)
}

/// An instant at which a token can be issued.
pub open spec fn can_issue_at(now: u64) -> bool {
    now <= MAX_ISSUE_TIME
}

/// The authority over credentials and tokens. Each operation reads the
/// clock once; its contract holds for the instant that was read.
pub trait AuthServiceTrait {
    /// The records of the directory behind the authority.
    spec fn users(&self) -> UserRecords;

    /// Whether the directory behind the authority answers every request.
    spec fn reliable(&self) -> bool;

    /// The signing secret.
    spec fn secret(&self) -> Seq<char>;

    /// The work factor that new passwords are hashed with.
    spec fn cost(&self) -> u32;

    /// Creates an account and issues its first token.
    fn register_user(&mut self, username: &str, email: &str, password: &str) -> (res: Result<
        (User, String),
        AuthError,
    >)
        ensures
            exists|now: u64|
                can_issue_at(now) && #[trigger] register_post(
                    old(self).users(),
                    old(self).reliable(),
                    old(self).secret(),
                    old(self).cost(),
                    username@,
                    email@,
                    password@,
                    now,
                    session_view(res),
                    final(self).users(),
                ),
            final(self).reliable() == old(self).reliable(),
            final(self).secret() == old(self).secret(),
            final(self).cost() == old(self).cost(),
    ;

    /// Checks credentials and issues a token.
    fn login_user(&self, email: &str, password: &str) -> (res: Result<(User, String), AuthError>)
        ensures
            exists|now: u64|
                can_issue_at(now) && #[trigger] login_post(
                    self.users(),
                    self.reliable(),
                    self.secret(),
                    email@,
                    password@,
                    now,
                    session_view(res),
                ),
    ;

    /// Issues a fresh token to a user who is already authenticated.
    fn get_current_user(&self, user: User) -> (res: Result<(User, String), AuthError>)
        ensures
            exists|now: u64|
                can_issue_at(now) && #[trigger] refresh_post(
                    self.secret(),
                    user@,
                    now,
                    session_view(res),
                ),
    ;

    /// Resolves a token to the id of the user it was issued to.
    fn validate_token(&self, token: &str) -> (res: Result<u128, AuthError>)
        ensures
            exists|now: u64| res == #[trigger] validate_at(token@, self.secret(), now),
    ;
}

/// The notes of the service: the note store's operations under their
/// business names, with the store's contract.
pub trait NoteServiceTrait {
    /// The notes held, oldest first.
    spec fn notes(&self) -> NoteRecords;

    /// Adds a note for `user_id`.
    fn create_note(&mut self, user_id: u128, title: &str, content: &str) -> (res: Result<
        Note,
        StoreError,
    >)
        ensures
            create_note_post(
                old(self).notes(),
                user_id,
                title@,
                content@,
                created_note_view(res),
                final(self).notes(),
            ),
    ;

    /// Looks up the note `note_id` of the user `user_id`.
    fn find_note_by_id(&self, note_id: u128, user_id: u128) -> (res: Result<
        Option<Note>,
        StoreError,
    >)
        ensures
            find_note_post(self.notes(), note_id, user_id, found_note_view(res)),
    ;

    /// Lists the notes of the user `user_id`, oldest first.
    fn find_notes_by_user_id(&self, user_id: u128) -> (res: Result<Vec<Note>, StoreError>)
        ensures
            find_all_notes_post(self.notes(), user_id, found_notes_view(res)),
    ;

    /// Changes the fields that are given and leaves the others as they are.
    fn update_note(&mut self, note_id: u128, title: Option<&str>, content: Option<&str>) -> (res:
        Result<Option<Note>, StoreError>)
        ensures
            update_note_post(
                old(self).notes(),
                note_id,
                opt_str(title),
                opt_str(content),
                found_note_view(res),
                final(self).notes(),
            ),
    ;

    /// Removes a note and returns it.
    fn delete_note(&mut self, note_id: u128) -> (res: Result<Option<Note>, StoreError>)
        ensures
            delete_note_post(old(self).notes(), note_id, found_note_view(res), final(self).notes()),
    ;
}

} // verus!
