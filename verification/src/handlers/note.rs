//! Handlers of the note requests. Every one of them is reached only with
//! an authenticated identity, and asks the note service only for notes of
//! that user.

use vstd::prelude::*;
use crate::auth::middleware::RequireAuth;
use crate::models::note::NoteView;
use crate::repositories::traits::{create_note_post, notes_of, owns_note};
use crate::schemas::note_schemas::{
    note_data_of, note_list_of, CreateNoteRequest, NoteData, NoteDataView, NoteListResponse,
    NoteResponse,
};
use crate::services::traits::NoteServiceTrait;
use crate::status::Status;

verus! {

/// The value of an answer that carries one note.
pub open spec fn note_response_view(res: Result<NoteResponse, Status>) -> Result<
    NoteDataView,
    Status,
> {
    match res {
        Ok(r) => Ok(r@),
        Err(s) => Err(s),
    }
}

/// The value of an answer that carries a list of notes.
pub open spec fn note_list_response_view(res: Result<NoteListResponse, Status>) -> Result<
    Seq<NoteDataView>,
    Status,
> {
    match res {
        Ok(r) => Ok(r@),
        Err(s) => Err(s),
    }
}

/// The outcome of a request to create a note for the user `user_id`: a
/// body beyond the length limits is a bad request and reaches no store; a
/// store failure is an internal error.
pub open spec fn create_note_outcome(
    pre: Seq<NoteView>,
    user_id: u128,
    valid: bool,
    title: Seq<char>,
    content: Seq<char>,
    res: Result<NoteDataView, Status>,
    post: Seq<NoteView>,
) -> bool {
    match res {
        Ok(d) => {
            &&& valid
            &&& post.len() == pre.len() + 1
            &&& create_note_post(
                pre,
                user_id,
                title,
                content,
                Ok::<NoteView, crate::repositories::traits::StoreError>(post.last()),
                post,
            )
            &&& d == note_data_of(post.last())
        },
        Err(Status::BadRequest) => !valid && post == pre,
        Err(Status::InternalServerError) => valid && post == pre,
        Err(_) => false,
    }
}

/// The outcome of a request for one note: a note that is not there and a
/// note of another user are both not found.
pub open spec fn find_note_outcome(
    notes: Seq<NoteView>,
    note_id: u128,
    user_id: u128,
    res: Result<NoteDataView, Status>,
) -> bool {
    match res {
        Ok(d) => exists|i: int|
            0 <= i < notes.len() && (#[trigger] notes[i]).id == note_id && notes[i].user_id
                == user_id && d == note_data_of(notes[i]),
        Err(Status::NotFound) => !owns_note(notes, note_id, user_id),
        Err(Status::InternalServerError) => true,
        Err(_) => false,
    }
}

/// The outcome of a request for all notes of a user.
pub open spec fn find_all_notes_outcome(
    notes: Seq<NoteView>,
    user_id: u128,
    res: Result<Seq<NoteDataView>, Status>,
) -> bool {
    match res {
        Ok(list) => list == note_list_of(notes_of(notes, user_id)),
        Err(s) => s == Status::InternalServerError,
    }
}

/// Handles a request to create a note for the authenticated user.
pub fn create_note<N: NoteServiceTrait>(
    identity: RequireAuth,
    note_service: &mut N,
    payload: CreateNoteRequest,
) -> (res: Result<NoteResponse, Status>)
    ensures
        create_note_outcome(
            old(note_service).notes(),
            identity.0.id,
            payload.note.is_valid(),
            payload.note.title@,
            payload.note.content@,
            note_response_view(res),
            final(note_service).notes(),
        ),
{
    if !payload.note.validate() {
        return Err(Status::BadRequest);
    }
    match note_service.create_note(
        identity.0.id,
        payload.note.title.as_str(),
        payload.note.content.as_str(),
    ) {
        Ok(note) => Ok(NoteResponse { note: NoteData::from_note(note) }),
        Err(_) => Err(Status::InternalServerError),
    }
}

/// Handles a request for one note of the authenticated user.
pub fn find_note_by_id<N: NoteServiceTrait>(
    identity: RequireAuth,
    note_service: &N,
    note_id: u128,
) -> (res: Result<NoteResponse, Status>)
    ensures
        find_note_outcome(note_service.notes(), note_id, identity.0.id, note_response_view(res)),
{
    match note_service.find_note_by_id(note_id, identity.0.id) {
        Err(_) => Err(Status::InternalServerError),
        Ok(None) => Err(Status::NotFound),
        Ok(Some(note)) => Ok(NoteResponse { note: NoteData::from_note(note) }),
    }
}

/// Handles a request for all notes of the authenticated user.
pub fn find_all_notes<N: NoteServiceTrait>(identity: RequireAuth, note_service: &N) -> (res:
    Result<NoteListResponse, Status>)
    ensures
        find_all_notes_outcome(
            note_service.notes(),
            identity.0.id,
            note_list_response_view(res),
        ),
{
    match note_service.find_notes_by_user_id(identity.0.id) {
        Ok(notes) => Ok(NoteListResponse::from_notes(notes)),
        Err(_) => Err(Status::InternalServerError),
    }
}

} // verus!
