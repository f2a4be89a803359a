//! Bodies of the note requests and responses.

use vstd::prelude::*;
use crate::models::note::{Note, NoteView};
use crate::repositories::traits::note_views;
use crate::schemas::validation::length_within;

verus! {

/// The longest title a note may have, in characters.
pub const MAX_TITLE_CHARS: u64 = 50;

/// The longest content a note may have, in characters.
pub const MAX_CONTENT_CHARS: u64 = 500;

/// The body of a request to create a note.
#[derive(Debug)]
pub struct CreateNoteRequest {
    pub note: CreateNoteData,
}

/// The title and content of a new note.
#[derive(Debug)]
pub struct CreateNoteData {
    pub title: String,
    pub content: String,
}

impl CreateNoteData {
    /// A title of at most 50 characters and a content of at most 500.
    pub open spec fn is_valid(&self) -> bool {
        self.title@.len() <= MAX_TITLE_CHARS && self.content@.len() <= MAX_CONTENT_CHARS
    }

    /// Checks the field lengths.
    pub fn validate(&self) -> (ok: bool)
        ensures
            ok == self.is_valid(),
    {
        length_within(self.title.as_str(), None, Some(MAX_TITLE_CHARS)) && length_within(
            self.content.as_str(),
            None,
            Some(MAX_CONTENT_CHARS),
        )
    }
}

/// The body of a response that carries one note.
#[derive(Debug)]
pub struct NoteResponse {
    pub note: NoteData,
}

/// What a client is told of a note.
#[derive(Debug)]
pub struct NoteData {
    pub user_id: u128,
    pub title: String,
    pub content: String,
}

/// The mathematical value of [`NoteData`].
pub ghost struct NoteDataView {
    pub user_id: u128,
    pub title: Seq<char>,
    pub content: Seq<char>,
}

impl View for NoteData {
    type V = NoteDataView;

    open spec fn view(&self) -> NoteDataView {
        NoteDataView { user_id: self.user_id, title: self.title@, content: self.content@ }
    }
}

/// The outward form of a note.
pub open spec fn note_data_of(note: NoteView) -> NoteDataView {
    NoteDataView { user_id: note.user_id, title: note.title, content: note.content }
}

/// The outward forms of notes, in the same order.
pub open spec fn note_list_of(notes: Seq<NoteView>) -> Seq<NoteDataView> {
    Seq::new(notes.len(), |i: int| note_data_of(notes[i]))
}

impl NoteData {
    /// The outward form of `note`.
    pub fn from_note(note: Note) -> (data: Self)
        ensures
            data@ == note_data_of(note@),
    {
        NoteData { user_id: note.user_id, title: note.title, content: note.content }
    }
}

/// The body of a response that carries a user's notes.
#[derive(Debug)]
pub struct NoteListResponse {
    pub notes: Vec<NoteData>,
}

impl View for NoteListResponse {
    type V = Seq<NoteDataView>;

    open spec fn view(&self) -> Seq<NoteDataView> {
        Seq::new(self.notes@.len(), |i: int| self.notes@[i]@)
    }
}

impl View for NoteResponse {
    type V = NoteDataView;

    open spec fn view(&self) -> NoteDataView {
        self.note@
    }
}

impl NoteListResponse {
    /// The outward forms of `notes`, in the same order.
    pub fn from_notes(notes: Vec<Note>) -> (list: Self)
        ensures
            list@ == note_list_of(note_views(notes@)),
    {
        let ghost given = notes@;
        let mut out: Vec<NoteData> = Vec::new();
        for note in it: notes
            invariant
                it.seq() == given,
                out@.len() == it.index(),
                forall|i: int|
                    0 <= i < out@.len() ==> (#[trigger] out@[i])@ == note_data_of(given[i]@),
        {
            out.push(NoteData::from_note(note));
        }
        NoteListResponse { notes: out }
    }
}

} // verus!
