//! A user store held in memory.

use vstd::prelude::*;
use crate::clock::unix_micros;
use crate::models::user::{clone_opt_string, User, UserView};
use crate::repositories::traits::{
    email_taken, id_taken, username_taken, users_distinct, StoreError, UserRepositoryTrait,
};

verus! {

/// The records of a vector, each as its value.
pub open spec fn views_of(records: Seq<User>) -> Seq<UserView> {
    Seq::new(records.len(), |i: int| records[i]@)
}

/// A store that keeps its records in a vector, oldest first. The record at
/// index `i` has the id `i + 1`, so ids are never reused; no two records
/// share an email or a username.
pub struct InMemoryUserRepository {
    records: Vec<User>,
}

impl InMemoryUserRepository {
    #[verifier::type_invariant]
    spec fn well_formed(self) -> bool {
        &&& forall|i: int| 0 <= i < self.records@.len() ==> (#[trigger] self.records@[i]).id == i + 1
        &&& users_distinct(views_of(self.records@))
    }

    /// An empty store.
    pub fn new() -> (store: Self)
        ensures
            store.users() == Seq::<UserView>::empty(),
    {
        let store = InMemoryUserRepository { records: Vec::new() };
        store
    }

    /// How many records the store holds.
    pub fn len(&self) -> (n: usize)
        ensures
            n == self.users().len(),
    {
        self.records.len()
    }

    /// The index of the record with this email.
    fn position_by_email(&self, email: &str) -> (at: Option<usize>)
        ensures
            match at {
                Some(i) => {
                    &&& i < self.records@.len()
                    &&& self.records@[i as int].email@ == email@
                    &&& email_taken(views_of(self.records@), email@)
                },
                None => !email_taken(views_of(self.records@), email@),
            },
    {
        let wanted = email.to_owned();
        let mut i: usize = 0;
        while i < self.records.len()
            invariant
                i <= self.records@.len(),
                wanted@ == email@,
                forall|j: int| 0 <= j < i ==> (#[trigger] self.records@[j]).email@ != email@,
            decreases self.records@.len() - i,
        {
            if self.records[i].email == wanted {
                assert(views_of(self.records@)[i as int].email == email@);
                return Some(i);
            }
            i += 1;
        }
        None
    }

    /// The index of the record with this username.
    fn position_by_username(&self, username: &str) -> (at: Option<usize>)
        ensures
            match at {
                Some(i) => {
                    &&& i < self.records@.len()
                    &&& self.records@[i as int].username@ == username@
                    &&& username_taken(views_of(self.records@), username@)
                },
                None => !username_taken(views_of(self.records@), username@),
            },
    {
        let wanted = username.to_owned();
        let mut i: usize = 0;
        while i < self.records.len()
            invariant
                i <= self.records@.len(),
                wanted@ == username@,
                forall|j: int| 0 <= j < i ==> (#[trigger] self.records@[j]).username@ != username@,
            decreases self.records@.len() - i,
        {
            if self.records[i].username == wanted {
                assert(views_of(self.records@)[i as int].username == username@);
                return Some(i);
            }
            i += 1;
        }
        None
    }

    /// The index of the record with this id.
    fn position_by_id(&self, user_id: u128) -> (at: Option<usize>)
        ensures
            match at {
                Some(i) => {
                    &&& i < self.records@.len()
                    &&& self.records@[i as int].id == user_id
                    &&& id_taken(views_of(self.records@), user_id)
                },
                None => !id_taken(views_of(self.records@), user_id),
            },
    {
        let mut i: usize = 0;
        while i < self.records.len()
            invariant
                i <= self.records@.len(),
                forall|j: int| 0 <= j < i ==> (#[trigger] self.records@[j]).id != user_id,
            decreases self.records@.len() - i,
        {
            if self.records[i].id == user_id {
                assert(views_of(self.records@)[i as int].id == user_id);
                return Some(i);
            }
            i += 1;
        }
        None
    }
}

impl UserRepositoryTrait for InMemoryUserRepository {
    closed spec fn users(&self) -> Seq<UserView> {
        views_of(self.records@)
    }

    open spec fn reliable(&self) -> bool {
        true
    }

    /// Ids count the records: the first record gets the id 1. A new record
    /// is stamped once, so its two timestamps agree.
    fn create(&mut self, username: &str, email: &str, password_hash: &str) -> (res: Result<
        User,
        StoreError,
    >)
        ensures
            res matches Ok(u) ==> u.id == old(self).users().len() + 1 && u.created_at
                == u.updated_at,
    {
        proof {
            use_type_invariant(&*self);
        }
        if self.position_by_email(email).is_some() {
            return Err(StoreError::AlreadyExists);
        }
        if self.position_by_username(username).is_some() {
            return Err(StoreError::AlreadyExists);
        }
        let now = unix_micros();
        let n = self.records.len();
        let user = User {
            id: n as u128 + 1,
            username: username.to_owned(),
            email: email.to_owned(),
            password_hash: password_hash.to_owned(),
            bio: None,
            image: None,
            created_at: now,
            updated_at: now,
        };
        let copy = user.clone();
        let ghost pre = self.records@;
        let mut records = Vec::new();
        std::mem::swap(&mut records, &mut self.records);
        records.push(user);
        assert(views_of(records@) =~= views_of(pre).push(copy@));
        self.records = records;
        Ok(copy)
    }

    fn find_by_id(&self, user_id: u128) -> (res: Result<Option<User>, StoreError>) {
        match self.position_by_id(user_id) {
            Some(i) => {
                let found = self.records[i].clone();
                assert(views_of(self.records@)[i as int] == found@);
                Ok(Some(found))
            },
            None => Ok(None),
        }
    }

    fn find_by_email(&self, email: &str) -> (res: Result<Option<User>, StoreError>) {
        match self.position_by_email(email) {
            Some(i) => {
                let found = self.records[i].clone();
                assert(views_of(self.records@)[i as int] == found@);
                Ok(Some(found))
            },
            None => Ok(None),
        }
    }

    fn find_by_username(&self, username: &str) -> (res: Result<Option<User>, StoreError>) {
        match self.position_by_username(username) {
            Some(i) => {
                let found = self.records[i].clone();
                assert(views_of(self.records@)[i as int] == found@);
                Ok(Some(found))
            },
            None => Ok(None),
        }
    }

    fn update(
        &mut self,
        user_id: u128,
        username: Option<&str>,
        email: Option<&str>,
        bio: Option<&str>,
        image: Option<&str>,
    ) -> (res: Result<Option<User>, StoreError>) {
        proof {
            use_type_invariant(&*self);
        }
        let ghost pre = self.records@;
        let at = match self.position_by_id(user_id) {
            Some(i) => i,
            None => {
                return Ok(None);
            },
        };
        if let Some(name) = username {
            if let Some(j) = self.position_by_username(name) {
                if j != at {
                    assert(views_of(pre)[j as int].username == name@);
                    return Err(StoreError::AlreadyExists);
                }
            }
        }
        if let Some(address) = email {
            if let Some(j) = self.position_by_email(address) {
                if j != at {
                    assert(views_of(pre)[j as int].email == address@);
                    return Err(StoreError::AlreadyExists);
                }
            }
        }
        let changed = username.is_some() || email.is_some() || bio.is_some() || image.is_some();
        let stamp = if changed {
            unix_micros()
        } else {
            self.records[at].updated_at
        };
        let before = &self.records[at];
        let user = User {
            id: before.id,
            username: match username {
                Some(s) => s.to_owned(),
                None => before.username.clone(),
            },
            email: match email {
                Some(s) => s.to_owned(),
                None => before.email.clone(),
            },
            password_hash: before.password_hash.clone(),
            bio: match bio {
                Some(s) => Some(s.to_owned()),
                None => clone_opt_string(&before.bio),
            },
            image: match image {
                Some(s) => Some(s.to_owned()),
                None => clone_opt_string(&before.image),
            },
            created_at: before.created_at,
            updated_at: stamp,
        };
        let copy = user.clone();
        let mut records = Vec::new();
        std::mem::swap(&mut records, &mut self.records);
        records.set(at, user);
        assert(views_of(records@) =~= views_of(pre).update(at as int, copy@));
        self.records = records;
        Ok(Some(copy))
    }
}

} // verus!
