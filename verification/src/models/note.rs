//! The note record.

use vstd::prelude::*;

verus! {

/// A note owned by one user. Identifiers are 128-bit values; timestamps
/// count microseconds since the Unix epoch.
#[derive(Debug)]
pub struct Note {
    pub id: u128,
    pub user_id: u128,
    pub title: String,
    pub content: String,
    pub created_at: i64,
    pub updated_at: i64,
}

/// The mathematical value of a [`Note`].
pub ghost struct NoteView {
    pub id: u128,
    pub user_id: u128,
    pub title: Seq<char>,
    pub content: Seq<char>,
    pub created_at: i64,
    pub updated_at: i64,
}

impl View for Note {
    type V = NoteView;

    open spec fn view(&self) -> NoteView {
        NoteView {
            id: self.id,
            user_id: self.user_id,
            title: self.title@,
            content: self.content@,
            created_at: self.created_at,
            updated_at: self.updated_at,
        }
    }
}

impl Clone for Note {
    fn clone(&self) -> (res: Self)
        ensures
            res@ == self@,
    {
        Note {
            id: self.id,
            user_id: self.user_id,
            title: self.title.clone(),
            content: self.content.clone(),
            created_at: self.created_at,
            updated_at: self.updated_at,
        }
    }
}

} // verus!
