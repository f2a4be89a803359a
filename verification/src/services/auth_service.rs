//! The credential and token authority.

use vstd::prelude::*;
use crate::clock::{epoch_seconds, unix_seconds};
use crate::models::user::{User, UserView};
use crate::password::{
    check_password, hash_or_error, hash_password, text_result, HASH_COST, MAX_HASH_COST,
    MIN_HASH_COST,
};
use crate::repositories::traits::{created_view, found_view, StoreError};
use crate::services::traits::{
    can_issue_at, enroll_post, login_post, refresh_post, register_post, session_view,
    validate_at, AuthError, AuthServiceTrait, UserServiceTrait,
};
use crate::token::{
    is_token_for, issue_token, signed_token, signing_outcome, validate_token_at,
};

verus! {

/// What registration makes of a lookup by email or by username: the name
/// must be free.
pub open spec fn vacancy(found: Result<Option<UserView>, StoreError>) -> Result<(), AuthError> {
    match found {
        Ok(None) => Ok(()),
        Ok(Some(_)) => Err(AuthError::UserAlreadyExists),
        Err(StoreError::AlreadyExists) => Err(AuthError::UserAlreadyExists),
        Err(StoreError::Unavailable) => Err(AuthError::DatabaseError(StoreError::Unavailable)),
    }
}

/// What login makes of a lookup by email: the account must be there.
pub open spec fn presence(found: Result<Option<UserView>, StoreError>) -> Result<
    UserView,
    AuthError,
> {
    match found {
        Ok(Some(u)) => Ok(u),
        Ok(None) => Err(AuthError::UserNotFound),
        Err(StoreError::AlreadyExists) => Err(AuthError::UserAlreadyExists),
        Err(StoreError::Unavailable) => Err(AuthError::DatabaseError(StoreError::Unavailable)),
    }
}

/// What registration makes of the store's answer to `create`: a collision
/// that only the store saw is still `UserAlreadyExists`.
pub open spec fn creation(created: Result<UserView, StoreError>) -> Result<UserView, AuthError> {
    match created {
        Ok(u) => Ok(u),
        Err(StoreError::AlreadyExists) => Err(AuthError::UserAlreadyExists),
        Err(StoreError::Unavailable) => Err(AuthError::DatabaseError(StoreError::Unavailable)),
    }
}

/// The value of a result that carries a user.
pub open spec fn user_result(res: Result<User, AuthError>) -> Result<UserView, AuthError> {
    match res {
        Ok(u) => Ok(u@),
        Err(e) => Err(e),
    }
}

/// Decides whether a name is free for registration; see [`vacancy`].
pub fn require_vacant(found: Result<Option<User>, StoreError>) -> (res: Result<(), AuthError>)
    ensures
        res == vacancy(found_view(found)),
{
    match found {
        Ok(None) => Ok(()),
        Ok(Some(_)) => Err(AuthError::UserAlreadyExists),
        Err(e) => Err(AuthError::from(e)),
    }
}

/// Decides whether a login has an account to go on with; see
/// [`presence`].
pub fn require_found(found: Result<Option<User>, StoreError>) -> (res: Result<User, AuthError>)
    ensures
        user_result(res) == presence(found_view(found)),
{
    match found {
        Ok(Some(u)) => Ok(u),
        Ok(None) => Err(AuthError::UserNotFound),
        Err(e) => Err(AuthError::from(e)),
    }
}

/// Turns the store's answer to `create` into the authority's; see
/// [`creation`].
pub fn created_or_error(created: Result<User, StoreError>) -> (res: Result<User, AuthError>)
    ensures
        user_result(res) == creation(created_view(created)),
{
    match created {
        Ok(u) => Ok(u),
        Err(e) => Err(AuthError::from(e)),
    }
}

/// The authority's configuration: set once when the process starts and
/// never changed afterwards.
#[derive(Debug)]
pub struct AuthConfig {
    /// The secret that tokens are signed with.
    pub jwt_secret: String,
    /// The work factor that new passwords are hashed with.
    pub hash_cost: u32,
}

impl AuthConfig {
    /// A configuration with the standard work factor.
    pub fn new(jwt_secret: String) -> (config: Self)
        ensures
            config.jwt_secret@ == jwt_secret@,
            config.hash_cost == HASH_COST,
    {
        AuthConfig { jwt_secret, hash_cost: HASH_COST }
    }
}

/// The authority: the only component that sees a password and the only
/// one that signs or verifies a token. It holds the signing secret and the
/// hasher's work factor, both fixed when it is built, and reaches users
/// through the directory `S`.
pub struct AuthService<S: UserServiceTrait> {
    user_service: S,
    jwt_secret: String,
    hash_cost: u32,
}

impl<S: UserServiceTrait> AuthService<S> {
    /// An authority over `user_service` that signs with `jwt_secret` and
    /// hashes with the standard work factor.
    pub fn new(user_service: S, jwt_secret: String) -> (service: Self)
        ensures
            service.users() == user_service.users(),
            service.reliable() == user_service.reliable(),
            service.secret() == jwt_secret@,
            service.cost() == HASH_COST,
    {
        AuthService { user_service, jwt_secret, hash_cost: HASH_COST }
    }

    /// An authority over `user_service` with the secret and the work factor
    /// of `config`.
    pub fn with_config(user_service: S, config: &AuthConfig) -> (service: Self)
        ensures
            service.users() == user_service.users(),
            service.reliable() == user_service.reliable(),
            service.secret() == config.jwt_secret@,
            service.cost() == config.hash_cost,
    {
        AuthService {
            user_service,
            jwt_secret: config.jwt_secret.clone(),
            hash_cost: config.hash_cost,
        }
    }

    /// The directory behind the authority.
    pub fn user_service(&self) -> (directory: &S)
        ensures
            directory.users() == self.users(),
            directory.reliable() == self.reliable(),
    {
        &self.user_service
    }

    /// The work factor that new passwords are hashed with.
    pub fn hash_cost(&self) -> (cost: u32)
        ensures
            cost == self.cost(),
    {
        self.hash_cost
    }

    /// Issues a token for `user_id` at `now`: subject `user_id`, issued at
    /// `now`, expiring one hour later. It is the signer's token for those
    /// claims, and `TokenGenerationError` where, and only where, the signer
    /// gives none. No id is refused and the directory is not asked.
    pub fn generate_token_at(&self, user_id: u128, now: u64) -> (res: Result<String, AuthError>)
        requires
            can_issue_at(now),
        ensures
            text_result(res) == signing_outcome(signed_token(user_id, now, self.secret())),
            res matches Ok(t) ==> is_token_for(t@, self.secret(), user_id, now),
    {
        issue_token(user_id, now, self.jwt_secret.as_str())
    }

    /// Issues a token for `user_id` at the instant the clock shows; see
    /// [`Self::generate_token_at`].
    pub fn generate_token(&self, user_id: u128) -> (res: Result<String, AuthError>)
        ensures
            exists|now: u64|
                {
                    &&& can_issue_at(now)
                    &&& text_result(res) == signing_outcome(
                        #[trigger] signed_token(user_id, now, self.secret()),
                    )
                    &&& res matches Ok(t) ==> is_token_for(t@, self.secret(), user_id, now)
                },
    {
        let now = epoch_seconds(unix_seconds());
        self.generate_token_at(user_id, now)
    }

    /// Resolves a token at `now`: the id it was issued to where the
    /// signature matches the secret and `now` is not past the expiry,
    /// `TokenValidationError` otherwise.
    pub fn validate_token_at(&self, token: &str, now: u64) -> (res: Result<u128, AuthError>)
        ensures
            res == validate_at(token@, self.secret(), now),
    {
        validate_token_at(token, self.jwt_secret.as_str(), now)
    }

    /// Registers an account at `now`; see [`register_post`].
    pub fn register_user_at(&mut self, username: &str, email: &str, password: &str, now: u64) -> (res:
        Result<(User, String), AuthError>)
        requires
            can_issue_at(now),
        ensures
            register_post(
                old(self).users(),
                old(self).reliable(),
                old(self).secret(),
                old(self).cost(),
                username@,
                email@,
                password@,
                now,
                session_view(res),
                final(self).users(),
            ),
            final(self).reliable() == old(self).reliable(),
            final(self).secret() == old(self).secret(),
            final(self).cost() == old(self).cost(),
            !(MIN_HASH_COST <= old(self).cost() <= MAX_HASH_COST) ==> res is Err,
    {
        if let Err(e) = require_vacant(self.user_service.find_user_by_email(email)) {
            return Err(e);
        }
        if let Err(e) = require_vacant(self.user_service.find_user_by_username(username)) {
            return Err(e);
        }
        let hash = hash_password(password, self.hash_cost);
        self.register_with_hash(username, email, hash, now)
    }

    /// Finishes a registration with the hasher's answer: stores the account
    /// under the hash and issues its first token at `now`. Where the hasher
    /// gave no hash, nothing is stored and the answer is
    /// `PasswordHashError`; where it gave one, that error never comes and
    /// the outcome is that of [`enroll_post`].
    pub fn register_with_hash(
        &mut self,
        username: &str,
        email: &str,
        hash: Option<String>,
        now: u64,
    ) -> (res: Result<(User, String), AuthError>)
        requires
            can_issue_at(now),
        ensures
            hash is None ==> session_view(res) == Err::<(UserView, Seq<char>), AuthError>(
                AuthError::PasswordHashError,
            ) && final(self).users() == old(self).users(),
            hash matches Some(h) ==> enroll_post(
                old(self).users(),
                old(self).reliable(),
                old(self).secret(),
                username@,
                email@,
                h@,
                now,
                session_view(res),
                final(self).users(),
            ),
            final(self).reliable() == old(self).reliable(),
            final(self).secret() == old(self).secret(),
            final(self).cost() == old(self).cost(),
    {
        let password_hash = match hash_or_error(hash) {
            Ok(h) => h,
            Err(e) => {
                return Err(e);
            },
        };
        let created = self.user_service.create_user(username, email, password_hash.as_str());
        let user = match created_or_error(created) {
            Ok(u) => u,
            Err(e) => {
                return Err(e);
            },
        };
        let token = match issue_token(user.id, now, self.jwt_secret.as_str()) {
            Ok(t) => t,
            Err(e) => {
                return Err(e);
            },
        };
        Ok((user, token))
    }

    /// Logs a user in at `now`; see [`login_post`].
    pub fn login_user_at(&self, email: &str, password: &str, now: u64) -> (res: Result<
        (User, String),
        AuthError,
    >)
        requires
            can_issue_at(now),
        ensures
            login_post(
                self.users(),
                self.reliable(),
                self.secret(),
                email@,
                password@,
                now,
                session_view(res),
            ),
    {
        let user = match require_found(self.user_service.find_user_by_email(email)) {
            Ok(u) => u,
            Err(e) => {
                return Err(e);
            },
        };
        if let Err(e) = check_password(password, user.password_hash.as_str()) {
            return Err(e);
        }
        let token = match issue_token(user.id, now, self.jwt_secret.as_str()) {
            Ok(t) => t,
            Err(e) => {
                return Err(e);
            },
        };
        Ok((user, token))
    }

    /// Issues a fresh token at `now` to a user who is already
    /// authenticated; credentials are not checked again.
    pub fn get_current_user_at(&self, user: User, now: u64) -> (res: Result<
        (User, String),
        AuthError,
    >)
        requires
            can_issue_at(now),
        ensures
            refresh_post(self.secret(), user@, now, session_view(res)),
    {
        let token = match issue_token(user.id, now, self.jwt_secret.as_str()) {
            Ok(t) => t,
            Err(e) => {
                return Err(e);
            },
        };
        Ok((user, token))
    }
}

impl<S: UserServiceTrait> AuthServiceTrait for AuthService<S> {
    closed spec fn users(&self) -> Seq<UserView> {
        self.user_service.users()
    }

    closed spec fn reliable(&self) -> bool {
        self.user_service.reliable()
    }

    closed spec fn secret(&self) -> Seq<char> {
        self.jwt_secret@
    }

    closed spec fn cost(&self) -> u32 {
        self.hash_cost
    }

    fn register_user(&mut self, username: &str, email: &str, password: &str) -> (res: Result<
        (User, String),
        AuthError,
    >) {
        let now = epoch_seconds(unix_seconds());
        self.register_user_at(username, email, password, now)
    }

    fn login_user(&self, email: &str, password: &str) -> (res: Result<(User, String), AuthError>) {
        let now = epoch_seconds(unix_seconds());
        self.login_user_at(email, password, now)
    }

    fn get_current_user(&self, user: User) -> (res: Result<(User, String), AuthError>) {
        let now = epoch_seconds(unix_seconds());
        self.get_current_user_at(user, now)
    }

    fn validate_token(&self, token: &str) -> (res: Result<u128, AuthError>) {
        let now = epoch_seconds(unix_seconds());
        self.validate_token_at(token, now)
    }
}

} // verus!
