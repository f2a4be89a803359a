//! The account record.

use vstd::prelude::*;

verus! {

/// An account. `id` is assigned once by the store and never changes;
/// `password_hash` holds the output of the password hasher, never the
/// password. Timestamps count microseconds since the Unix epoch.
#[derive(Debug)]
pub struct User {
    pub id: u128,
    pub username: String,
    pub email: String,
    pub password_hash: String,
    pub bio: Option<String>,
    pub image: Option<String>,
    pub created_at: i64,
    pub updated_at: i64,
}

/// The mathematical value of a [`User`]: every string as its sequence of
/// characters.
pub ghost struct UserView {
    pub id: u128,
    pub username: Seq<char>,
    pub email: Seq<char>,
    pub password_hash: Seq<char>,
    pub bio: Option<Seq<char>>,
    pub image: Option<Seq<char>>,
    pub created_at: i64,
    pub updated_at: i64,
}

/// The value of an optional string.
pub open spec fn opt_text(s: Option<String>) -> Option<Seq<char>> {
    match s {
        Some(t) => Some(t@),
        None => None,
    }
}

/// The value of an optional string slice.
pub open spec fn opt_str(s: Option<&str>) -> Option<Seq<char>> {
    match s {
        Some(t) => Some(t@),
        None => None,
    }
}

impl View for User {
    type V = UserView;

    open spec fn view(&self) -> UserView {
        UserView {
            id: self.id,
            username: self.username@,
            email: self.email@,
            password_hash: self.password_hash@,
            bio: opt_text(self.bio),
            image: opt_text(self.image),
            created_at: self.created_at,
            updated_at: self.updated_at,
        }
    }
}

/// A copy of an optional string.
pub fn clone_opt_string(s: &Option<String>) -> (res: Option<String>)
    ensures
        opt_text(res) == opt_text(*s),
{
    match s {
        Some(t) => Some(t.clone()),
        None => None,
    }
}

impl Clone for User {
    fn clone(&self) -> (res: Self)
        ensures
            res@ == self@,
    {
        User {
            id: self.id,
            username: self.username.clone(),
            email: self.email.clone(),
            password_hash: self.password_hash.clone(),
            bio: clone_opt_string(&self.bio),
            image: clone_opt_string(&self.image),
            created_at: self.created_at,
            updated_at: self.updated_at,
        }
    }
}

} // verus!
