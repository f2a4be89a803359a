//! A note store held in memory.

use vstd::prelude::*;
use crate::clock::unix_micros;
use crate::models::note::{Note, NoteView};
use crate::models::user::opt_str;
use crate::repositories::traits::{
    is_updated_note, note_id_taken, note_views, notes_of, NoteRepositoryTrait, StoreError,
};

verus! {

/// A store that keeps its notes in a vector, oldest first. Ids are handed
/// out from a counter that only grows, so the id of a deleted note is never
/// used again.
pub struct InMemoryNoteRepository {
    records: Vec<Note>,
    next_id: u128,
}

impl InMemoryNoteRepository {
    #[verifier::type_invariant]
    spec fn well_formed(self) -> bool {
        &&& forall|i: int|
            0 <= i < self.records@.len() ==> (#[trigger] self.records@[i]).id < self.next_id
        &&& forall|i: int, j: int|
            0 <= i < j < self.records@.len() ==> (#[trigger] self.records@[i]).id != (
            #[trigger] self.records@[j]).id
    }

    /// The id that the next note will get.
    pub closed spec fn next_note_id(&self) -> u128 {
        self.next_id
    }

    /// Whether the store still has an id to hand out.
    pub open spec fn has_room(&self) -> bool {
        self.next_note_id() < u128::MAX
    }

    /// An empty store whose first note will get the id 1.
    pub fn new() -> (store: Self)
        ensures
            store.notes() == Seq::<NoteView>::empty(),
            store.next_note_id() == 1,
    {
        InMemoryNoteRepository { records: Vec::new(), next_id: 1 }
    }

    /// How many notes the store holds.
    pub fn len(&self) -> (n: usize)
        ensures
            n == self.notes().len(),
    {
        self.records.len()
    }

    /// The index of the note with this id.
    fn position(&self, note_id: u128) -> (at: Option<usize>)
        ensures
            match at {
                Some(i) => i < self.records@.len() && self.records@[i as int].id == note_id,
                None => !note_id_taken(note_views(self.records@), note_id),
            },
    {
        let mut i: usize = 0;
        while i < self.records.len()
            invariant
                i <= self.records@.len(),
                forall|j: int| 0 <= j < i ==> (#[trigger] self.records@[j]).id != note_id,
            decreases self.records@.len() - i,
        {
            if self.records[i].id == note_id {
                return Some(i);
            }
            i += 1;
        }
        None
    }
}

impl NoteRepositoryTrait for InMemoryNoteRepository {
    closed spec fn notes(&self) -> Seq<NoteView> {
        note_views(self.records@)
    }

    /// A new note gets the next id and is stamped once, so its two
    /// timestamps agree. The store fails only when its ids are used up, and
    /// then hands out none.
    fn create(&mut self, user_id: u128, title: &str, content: &str) -> (res: Result<
        Note,
        StoreError,
    >)
        ensures
            res is Ok <==> old(self).has_room(),
            res matches Ok(n) ==> n.id == old(self).next_note_id() && n.created_at
                == n.updated_at,
            final(self).next_note_id() == (if res is Ok {
                old(self).next_note_id() + 1
            } else {
                old(self).next_note_id() as int
            }),
    {
        proof {
            use_type_invariant(&*self);
        }
        if self.next_id == u128::MAX {
            return Err(StoreError::Unavailable);
        }
        let now = unix_micros();
        let note = Note {
            id: self.next_id,
            user_id,
            title: title.to_owned(),
            content: content.to_owned(),
            created_at: now,
            updated_at: now,
        };
        let copy = note.clone();
        let ghost pre = self.records@;
        let mut records = Vec::new();
        std::mem::swap(&mut records, &mut self.records);
        records.push(note);
        assert(note_views(records@) =~= note_views(pre).push(copy@));
        let next = self.next_id + 1;
        *self = InMemoryNoteRepository { records, next_id: next };
        Ok(copy)
    }

    /// A lookup in memory always answers.
    fn find_note_by_id(&self, note_id: u128, user_id: u128) -> (res: Result<
        Option<Note>,
        StoreError,
    >)
        ensures
            res is Ok,
    {
        proof {
            use_type_invariant(self);
        }
        let ghost views = note_views(self.records@);
        match self.position(note_id) {
            Some(i) => {
                if self.records[i].user_id == user_id {
                    let found = self.records[i].clone();
                    assert(views[i as int] == found@);
                    Ok(Some(found))
                } else {
                    Ok(None)
                }
            },
            None => Ok(None),
        }
    }

    /// A listing in memory always answers.
    fn find_all_notes(&self, user_id: u128) -> (res: Result<Vec<Note>, StoreError>)
        ensures
            res is Ok,
    {
        let ghost views = note_views(self.records@);
        let mut found: Vec<Note> = Vec::new();
        let mut i: usize = 0;
        while i < self.records.len()
            invariant
                i <= self.records@.len(),
                views == note_views(self.records@),
                note_views(found@) == notes_of(views.take(i as int), user_id),
            decreases self.records@.len() - i,
        {
            assert(views.take(i + 1).drop_last() =~= views.take(i as int));
            if self.records[i].user_id == user_id {
                found.push(self.records[i].clone());
            }
            i += 1;
        }
        assert(views.take(i as int) =~= views);
        Ok(found)
    }

    /// An update in memory always answers and uses up no id.
    fn update(&mut self, note_id: u128, title: Option<&str>, content: Option<&str>) -> (res:
        Result<Option<Note>, StoreError>)
        ensures
            res is Ok,
            final(self).next_note_id() == old(self).next_note_id(),
    {
        proof {
            use_type_invariant(&*self);
        }
        let ghost pre = self.records@;
        let at = match self.position(note_id) {
            Some(i) => i,
            None => {
                return Ok(None);
            },
        };
        let changed = title.is_some() || content.is_some();
        let stamp = if changed {
            unix_micros()
        } else {
            self.records[at].updated_at
        };
        let before = &self.records[at];
        let note = Note {
            id: before.id,
            user_id: before.user_id,
            title: match title {
                Some(s) => s.to_owned(),
                None => before.title.clone(),
            },
            content: match content {
                Some(s) => s.to_owned(),
                None => before.content.clone(),
            },
            created_at: before.created_at,
            updated_at: stamp,
        };
        let copy = note.clone();
        assert(is_updated_note(note_views(pre)[at as int], copy@, opt_str(title), opt_str(content)));
        let next_id = self.next_id;
        let mut records = Vec::new();
        std::mem::swap(&mut records, &mut self.records);
        records.set(at, note);
        assert(note_views(records@) =~= note_views(pre).update(at as int, copy@));
        *self = InMemoryNoteRepository { records, next_id };
        Ok(Some(copy))
    }

    /// A removal in memory always answers and frees no id.
    fn delete(&mut self, note_id: u128) -> (res: Result<Option<Note>, StoreError>)
        ensures
            res is Ok,
            final(self).next_note_id() == old(self).next_note_id(),
    {
        proof {
            use_type_invariant(&*self);
        }
        let ghost pre = self.records@;
        let at = match self.position(note_id) {
            Some(i) => i,
            None => {
                return Ok(None);
            },
        };
        let next_id = self.next_id;
        let mut records = Vec::new();
        std::mem::swap(&mut records, &mut self.records);
        let gone = records.remove(at);
        assert(note_views(pre)[at as int] == gone@);
        assert(note_views(records@) =~= note_views(pre).remove(at as int));
        *self = InMemoryNoteRepository { records, next_id };
        Ok(Some(gone))
    }
}

} // verus!
