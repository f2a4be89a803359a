//! The note service.

use vstd::prelude::*;
use crate::models::note::{Note, NoteView};
use crate::repositories::traits::{NoteRepositoryTrait, StoreError};
use crate::services::traits::NoteServiceTrait;

verus! {

/// The note service: it hands every request on to the store it was built
/// on and keeps no note of its own.
pub struct NoteService<R: NoteRepositoryTrait> {
    pub note_repository: R,
}

impl<R: NoteRepositoryTrait> NoteService<R> {
    /// A note service over `note_repository`.
    pub fn new(note_repository: R) -> (service: Self)
        ensures
            service.note_repository == note_repository,
    {
        NoteService { note_repository }
    }
}

impl<R: NoteRepositoryTrait> NoteServiceTrait for NoteService<R> {
    open spec fn notes(&self) -> Seq<NoteView> {
        self.note_repository.notes()
    }

    fn create_note(&mut self, user_id: u128, title: &str, content: &str) -> (res: Result<
        Note,
        StoreError,
    >) {
        self.note_repository.create(user_id, title, content)
    }

    fn find_note_by_id(&self, note_id: u128, user_id: u128) -> (res: Result<
        Option<Note>,
        StoreError,
    >) {
        self.note_repository.find_note_by_id(note_id, user_id)
    }

    fn find_notes_by_user_id(&self, user_id: u128) -> (res: Result<Vec<Note>, StoreError>) {
        self.note_repository.find_all_notes(user_id)
    }

    fn update_note(&mut self, note_id: u128, title: Option<&str>, content: Option<&str>) -> (res:
        Result<Option<Note>, StoreError>) {
        self.note_repository.update(note_id, title, content)
    }

    fn delete_note(&mut self, note_id: u128) -> (res: Result<Option<Note>, StoreError>) {
        self.note_repository.delete(note_id)
    }
}

} // verus!
