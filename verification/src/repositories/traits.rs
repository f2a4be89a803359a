//! What a user store promises, stated over the sequence of records it holds.

use vstd::prelude::*;
use crate::models::note::{Note, NoteView};
use crate::models::user::{opt_str, User, UserView};

verus! {

/// Why a store refused a request.
#[derive(Debug, Clone, Copy, PartialEq, Eq, Structural)]
pub enum StoreError {
    /// The username or the email is already in use by another record.
    AlreadyExists,
    /// The store could not be reached or did not answer.
    Unavailable,
}

/// The records of a user store as the contracts see them, oldest first.
pub type UserRecords = Seq<UserView>;

/// The notes of a note store as the contracts see them, oldest first.
pub type NoteRecords = Seq<NoteView>;

/// Some record carries this email.
pub open spec fn email_taken(users: Seq<UserView>, email: Seq<char>) -> bool {
    exists|i: int| 0 <= i < users.len() && (#[trigger] users[i]).email == email
}

/// Some record carries this username.
pub open spec fn username_taken(users: Seq<UserView>, username: Seq<char>) -> bool {
    exists|i: int| 0 <= i < users.len() && (#[trigger] users[i]).username == username
}

/// Some record carries this id.
pub open spec fn id_taken(users: Seq<UserView>, id: u128) -> bool {
    exists|i: int| 0 <= i < users.len() && (#[trigger] users[i]).id == id
}

/// No two records share an id, an email or a username.
pub open spec fn users_distinct(users: Seq<UserView>) -> bool {
    forall|i: int, j: int|
        0 <= i < j < users.len() ==> {
            &&& (#[trigger] users[i]).id != (#[trigger] users[j]).id
            &&& users[i].email != users[j].email
            &&& users[i].username != users[j].username
        }
}

/// The record that `create` makes from its arguments: no profile yet.
pub open spec fn is_new_account(
    u: UserView,
    username: Seq<char>,
    email: Seq<char>,
    password_hash: Seq<char>,
) -> bool {
    &&& u.username == username
    &&& u.email == email
    &&& u.password_hash == password_hash
    &&& u.bio is None
    &&& u.image is None
}

/// A partial update applied to a record: an absent field keeps its value.
/// The id, the password hash and the creation time never change; the
/// update time is left open where anything was changed.
pub open spec fn is_updated(
    before: UserView,
    after: UserView,
    username: Option<Seq<char>>,
    email: Option<Seq<char>>,
    bio: Option<Seq<char>>,
    image: Option<Seq<char>>,
) -> bool {
    &&& after.id == before.id
    &&& after.password_hash == before.password_hash
    &&& after.created_at == before.created_at
    &&& after.username == (if username is Some { username->0 } else { before.username })
    &&& after.email == (if email is Some { email->0 } else { before.email })
    &&& after.bio == (if bio is Some { bio } else { before.bio })
    &&& after.image == (if image is Some { image } else { before.image })
    &&& (username is None && email is None && bio is None && image is None ==> after
        == before)
}

/// Another record than the one at `at` already uses the requested username
/// or email.
pub open spec fn update_collides(
    users: Seq<UserView>,
    at: int,
    username: Option<Seq<char>>,
    email: Option<Seq<char>>,
) -> bool {
    exists|j: int|
        0 <= j < users.len() && j != at && {
            ||| (username is Some && (#[trigger] users[j]).username == username->0)
            ||| (email is Some && users[j].email == email->0)
        }
}

/// The outcome of a `create`, as a relation between the records before,
/// the arguments, the result and the records after.
pub open spec fn create_post(
    pre: Seq<UserView>,
    reliable: bool,
    username: Seq<char>,
    email: Seq<char>,
    password_hash: Seq<char>,
    res: Result<UserView, StoreError>,
    post: Seq<UserView>,
) -> bool {
    match res {
        Ok(u) => {
            &&& !email_taken(pre, email)
            &&& !username_taken(pre, username)
            &&& !id_taken(pre, u.id)
            &&& u.id != 0
            &&& is_new_account(u, username, email, password_hash)
            &&& post == pre.push(u)
        },
        Err(StoreError::AlreadyExists) => {
            &&& email_taken(pre, email) || username_taken(pre, username)
            &&& post == pre
        },
        Err(StoreError::Unavailable) => !reliable && post == pre,
    }
}

/// The outcome of a lookup by id.
pub open spec fn find_by_id_post(
    users: Seq<UserView>,
    reliable: bool,
    id: u128,
    res: Result<Option<UserView>, StoreError>,
) -> bool {
    match res {
        Ok(Some(u)) => users.contains(u) && u.id == id,
        Ok(None) => !id_taken(users, id),
        Err(e) => !reliable && e == StoreError::Unavailable,
    }
}

/// The outcome of a lookup by email.
pub open spec fn find_by_email_post(
    users: Seq<UserView>,
    reliable: bool,
    email: Seq<char>,
    res: Result<Option<UserView>, StoreError>,
) -> bool {
    match res {
        Ok(Some(u)) => users.contains(u) && u.email == email,
        Ok(None) => !email_taken(users, email),
        Err(e) => !reliable && e == StoreError::Unavailable,
    }
}

/// The outcome of a lookup by username.
pub open spec fn find_by_username_post(
    users: Seq<UserView>,
    reliable: bool,
    username: Seq<char>,
    res: Result<Option<UserView>, StoreError>,
) -> bool {
    match res {
        Ok(Some(u)) => users.contains(u) && u.username == username,
        Ok(None) => !username_taken(users, username),
        Err(e) => !reliable && e == StoreError::Unavailable,
    }
}

/// The outcome of an `update`.
pub open spec fn update_post(
    pre: Seq<UserView>,
    reliable: bool,
    id: u128,
    username: Option<Seq<char>>,
    email: Option<Seq<char>>,
    bio: Option<Seq<char>>,
    image: Option<Seq<char>>,
    res: Result<Option<UserView>, StoreError>,
    post: Seq<UserView>,
) -> bool {
    match res {
        Ok(Some(u)) => exists|i: int|
            {
                &&& 0 <= i < pre.len()
                &&& (#[trigger] pre[i]).id == id
                &&& !update_collides(pre, i, username, email)
                &&& is_updated(pre[i], u, username, email, bio, image)
                &&& post == pre.update(i, u)
            },
        Ok(None) => !id_taken(pre, id) && post == pre,
        Err(StoreError::AlreadyExists) => {
            &&& exists|i: int|
                0 <= i < pre.len() && (#[trigger] pre[i]).id == id && update_collides(
                    pre,
                    i,
                    username,
                    email,
                )
            &&& post == pre
        },
        Err(StoreError::Unavailable) => !reliable && post == pre,
    }
}

/// The value of a result that carries a record.
pub open spec fn created_view(res: Result<User, StoreError>) -> Result<UserView, StoreError> {
    match res {
        Ok(u) => Ok(u@),
        Err(e) => Err(e),
    }
}

/// The value of a result that may carry a record.
pub open spec fn found_view(res: Result<Option<User>, StoreError>) -> Result<
    Option<UserView>,
    StoreError,
> {
    match res {
        Ok(Some(u)) => Ok(Some(u@)),
        Ok(None) => Ok(None),
        Err(e) => Err(e),
    }
}

/// A store of user records. It is the one place where uniqueness of
/// usernames and emails is decided: `create` and `update` check and write
/// in one step.
pub trait UserRepositoryTrait {
    /// The records held, oldest first.
    spec fn users(&self) -> UserRecords;

    /// Whether this store answers every request. A store that may lose its
    /// connection is not reliable; one held in memory is.
    spec fn reliable(&self) -> bool;

    /// Adds a record for a new account and returns it with its fresh id,
    /// which is never 0.
    fn create(&mut self, username: &str, email: &str, password_hash: &str) -> (res: Result<
        User,
        StoreError,
    >)
        ensures
            create_post(
                old(self).users(),
                old(self).reliable(),
                username@,
                email@,
                password_hash@,
                created_view(res),
                final(self).users(),
            ),
            final(self).reliable() == old(self).reliable(),
    ;

    /// Looks a record up by its id.
    fn find_by_id(&self, user_id: u128) -> (res: Result<Option<User>, StoreError>)
        ensures
            find_by_id_post(self.users(), self.reliable(), user_id, found_view(res)),
    ;

    /// Looks a record up by its email.
    fn find_by_email(&self, email: &str) -> (res: Result<Option<User>, StoreError>)
        ensures
            find_by_email_post(self.users(), self.reliable(), email@, found_view(res)),
    ;

    /// Looks a record up by its username.
    fn find_by_username(&self, username: &str) -> (res: Result<Option<User>, StoreError>)
        ensures
            find_by_username_post(self.users(), self.reliable(), username@, found_view(res)),
    ;

    /// Changes the fields that are given and leaves the others as they are.
    fn update(
        &mut self,
        user_id: u128,
        username: Option<&str>,
        email: Option<&str>,
        bio: Option<&str>,
        image: Option<&str>,
    ) -> (res: Result<Option<User>, StoreError>)
        ensures
            update_post(
                old(self).users(),
                old(self).reliable(),
                user_id,
                opt_str(username),
                opt_str(email),
                opt_str(bio),
                opt_str(image),
                found_view(res),
                final(self).users(),
            ),
            final(self).reliable() == old(self).reliable(),
    ;
}

/// Some note carries this id.
pub open spec fn note_id_taken(notes: Seq<NoteView>, id: u128) -> bool {
    exists|i: int| 0 <= i < notes.len() && (#[trigger] notes[i]).id == id
}

/// Some note with this id belongs to this user.
pub open spec fn owns_note(notes: Seq<NoteView>, note_id: u128, user_id: u128) -> bool {
    exists|i: int|
        0 <= i < notes.len() && (#[trigger] notes[i]).id == note_id && notes[i].user_id == user_id
}

/// The notes of one user, in the order of the store.
pub open spec fn notes_of(notes: Seq<NoteView>, user_id: u128) -> Seq<NoteView>
    decreases notes.len(),
{
    if notes.len() == 0 {
        Seq::empty()
    } else if notes.last().user_id == user_id {
        notes_of(notes.drop_last(), user_id).push(notes.last())
    } else {
        notes_of(notes.drop_last(), user_id)
    }
}

/// A partial update applied to a note: an absent field keeps its value.
/// The id, the owner and the creation time never change.
pub open spec fn is_updated_note(
    before: NoteView,
    after: NoteView,
    title: Option<Seq<char>>,
    content: Option<Seq<char>>,
) -> bool {
    &&& after.id == before.id
    &&& after.user_id == before.user_id
    &&& after.created_at == before.created_at
    &&& after.title == (if title is Some { title->0 } else { before.title })
    &&& after.content == (if content is Some { content->0 } else { before.content })
    &&& (title is None && content is None ==> after == before)
}

/// The outcome of creating a note.
pub open spec fn create_note_post(
    pre: Seq<NoteView>,
    user_id: u128,
    title: Seq<char>,
    content: Seq<char>,
    res: Result<NoteView, StoreError>,
    post: Seq<NoteView>,
) -> bool {
    match res {
        Ok(n) => {
            &&& !note_id_taken(pre, n.id)
            &&& n.user_id == user_id
            &&& n.title == title
            &&& n.content == content
            &&& post == pre.push(n)
        },
        Err(e) => e == StoreError::Unavailable && post == pre,
    }
}

/// The outcome of looking up one note of one user: a note of another user
/// is not found.
pub open spec fn find_note_post(
    notes: Seq<NoteView>,
    note_id: u128,
    user_id: u128,
    res: Result<Option<NoteView>, StoreError>,
) -> bool {
    match res {
        Ok(Some(n)) => notes.contains(n) && n.id == note_id && n.user_id == user_id,
        Ok(None) => !owns_note(notes, note_id, user_id),
        Err(e) => e == StoreError::Unavailable,
    }
}

/// The outcome of listing the notes of one user.
pub open spec fn find_all_notes_post(
    notes: Seq<NoteView>,
    user_id: u128,
    res: Result<Seq<NoteView>, StoreError>,
) -> bool {
    match res {
        Ok(found) => found == notes_of(notes, user_id),
        Err(e) => e == StoreError::Unavailable,
    }
}

/// The outcome of updating a note.
pub open spec fn update_note_post(
    pre: Seq<NoteView>,
    note_id: u128,
    title: Option<Seq<char>>,
    content: Option<Seq<char>>,
    res: Result<Option<NoteView>, StoreError>,
    post: Seq<NoteView>,
) -> bool {
    match res {
        Ok(Some(n)) => exists|i: int|
            {
                &&& 0 <= i < pre.len()
                &&& (#[trigger] pre[i]).id == note_id
                &&& is_updated_note(pre[i], n, title, content)
                &&& post == pre.update(i, n)
            },
        Ok(None) => !note_id_taken(pre, note_id) && post == pre,
        Err(e) => e == StoreError::Unavailable && post == pre,
    }
}

/// The outcome of deleting a note: the note that left the store.
pub open spec fn delete_note_post(
    pre: Seq<NoteView>,
    note_id: u128,
    res: Result<Option<NoteView>, StoreError>,
    post: Seq<NoteView>,
) -> bool {
    match res {
        Ok(Some(n)) => exists|i: int|
            {
                &&& 0 <= i < pre.len()
                &&& #[trigger] pre[i] == n
                &&& n.id == note_id
                &&& post == pre.remove(i)
            },
        Ok(None) => !note_id_taken(pre, note_id) && post == pre,
        Err(e) => e == StoreError::Unavailable && post == pre,
    }
}

/// The value of a result that carries a note.
pub open spec fn created_note_view(res: Result<Note, StoreError>) -> Result<NoteView, StoreError> {
    match res {
        Ok(n) => Ok(n@),
        Err(e) => Err(e),
    }
}

/// The value of a result that may carry a note.
pub open spec fn found_note_view(res: Result<Option<Note>, StoreError>) -> Result<
    Option<NoteView>,
    StoreError,
> {
    match res {
        Ok(Some(n)) => Ok(Some(n@)),
        Ok(None) => Ok(None),
        Err(e) => Err(e),
    }
}

/// The values of the notes of a vector.
pub open spec fn note_views(notes: Seq<Note>) -> Seq<NoteView> {
    Seq::new(notes.len(), |i: int| notes[i]@)
}

/// The value of a result that carries a list of notes.
pub open spec fn found_notes_view(res: Result<Vec<Note>, StoreError>) -> Result<
    Seq<NoteView>,
    StoreError,
> {
    match res {
        Ok(v) => Ok(note_views(v@)),
        Err(e) => Err(e),
    }
}

/// A store of notes. A lookup always names the owner, so no user is handed
/// a note of another.
pub trait NoteRepositoryTrait {
    /// The notes held, oldest first.
    spec fn notes(&self) -> NoteRecords;

    /// Adds a note for `user_id` and returns it with its fresh id.
    fn create(&mut self, user_id: u128, title: &str, content: &str) -> (res: Result<
        Note,
        StoreError,
    >)
        ensures
            create_note_post(
                old(self).notes(),
                user_id,
                title@,
                content@,
                created_note_view(res),
                final(self).notes(),
            ),
    ;

    /// Looks up the note `note_id` of the user `user_id`.
    fn find_note_by_id(&self, note_id: u128, user_id: u128) -> (res: Result<
        Option<Note>,
        StoreError,
    >)
        ensures
            find_note_post(self.notes(), note_id, user_id, found_note_view(res)),
    ;

    /// Lists the notes of the user `user_id`, oldest first.
    fn find_all_notes(&self, user_id: u128) -> (res: Result<Vec<Note>, StoreError>)
        ensures
            find_all_notes_post(self.notes(), user_id, found_notes_view(res)),
    ;

    /// Changes the fields that are given and leaves the others as they are.
    fn update(&mut self, note_id: u128, title: Option<&str>, content: Option<&str>) -> (res:
        Result<Option<Note>, StoreError>)
        ensures
            update_note_post(
                old(self).notes(),
                note_id,
                opt_str(title),
                opt_str(content),
                found_note_view(res),
                final(self).notes(),
            ),
    ;

    /// Removes a note and returns it.
    fn delete(&mut self, note_id: u128) -> (res: Result<Option<Note>, StoreError>)
        ensures
            delete_note_post(old(self).notes(), note_id, found_note_view(res), final(self).notes()),
    ;
}

} // verus!
