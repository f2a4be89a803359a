//! The user directory.

use vstd::prelude::*;
use crate::models::user::{User, UserView};
use crate::repositories::traits::{StoreError, UserRepositoryTrait};
use crate::services::traits::UserServiceTrait;

verus! {

/// The directory: it hands every request on to the store it was built on
/// and keeps no record of its own.
pub struct UserService<R: UserRepositoryTrait> {
    pub user_repository: R,
}

impl<R: UserRepositoryTrait> UserService<R> {
    /// A directory over `user_repository`.
    pub fn new(user_repository: R) -> (service: Self)
        ensures
            service.user_repository == user_repository,
    {
        UserService { user_repository }
    }
}

impl<R: UserRepositoryTrait> UserServiceTrait for UserService<R> {
    open spec fn users(&self) -> Seq<UserView> {
        self.user_repository.users()
    }

    open spec fn reliable(&self) -> bool {
        self.user_repository.reliable()
    }

    fn create_user(&mut self, username: &str, email: &str, password_hash: &str) -> (res: Result<
        User,
        StoreError,
    >) {
        self.user_repository.create(username, email, password_hash)
    }

    fn find_user_by_id(&self, id: u128) -> (res: Result<Option<User>, StoreError>) {
        self.user_repository.find_by_id(id)
    }

    fn find_user_by_email(&self, email: &str) -> (res: Result<Option<User>, StoreError>) {
        self.user_repository.find_by_email(email)
    }

    fn find_user_by_username(&self, username: &str) -> (res: Result<Option<User>, StoreError>) {
        self.user_repository.find_by_username(username)
    }

    fn update_user(
        &mut self,
        id: u128,
        username: Option<&str>,
        email: Option<&str>,
        bio: Option<&str>,
        image: Option<&str>,
    ) -> (res: Result<Option<User>, StoreError>) {
        self.user_repository.update(id, username, email, bio, image)
    }
}

} // verus!
