use notes_auth::auth::RequireAuth;
use notes_auth::handlers::note::{create_note, find_all_notes, find_note_by_id};
use notes_auth::schemas::note_schemas::{CreateNoteData, CreateNoteRequest};
use notes_auth::status::Status;
use notes_auth::{
    InMemoryNoteRepository, NoteRepositoryTrait, NoteService, NoteServiceTrait, User,
};

fn user(id: u128) -> User {
    User {
        id,
        username: format!("user{}", id),
        email: format!("u{}@x.com", id),
        password_hash: "hash".to_string(),
        bio: None,
        image: None,
        created_at: 0,
        updated_at: 0,
    }
}

fn body(title: &str, content: &str) -> CreateNoteRequest {
    CreateNoteRequest {
        note: CreateNoteData { title: title.to_string(), content: content.to_string() },
    }
}

fn store_with_three() -> InMemoryNoteRepository {
    let mut store = InMemoryNoteRepository::new();
    store.create(7, "first", "a").unwrap();
    store.create(8, "second", "b").unwrap();
    store.create(7, "third", "c").unwrap();
    store
}

#[test]
fn note_store_starts_empty() {
    let store = InMemoryNoteRepository::new();
    assert_eq!(store.len(), 0);
    assert!(store.find_note_by_id(1, 7).unwrap().is_none());
    assert!(store.find_all_notes(7).unwrap().is_empty());
}

#[test]
fn note_create_returns_the_note() {
    let mut store = InMemoryNoteRepository::new();
    let note = store.create(7, "title", "content").unwrap();
    assert_eq!(note.id, 1);
    assert_eq!(note.user_id, 7);
    assert_eq!(note.title, "title");
    assert_eq!(note.content, "content");
    assert_eq!(note.created_at, note.updated_at);
    assert_eq!(store.create(7, "title", "content").unwrap().id, 2);
    assert_eq!(store.len(), 2);
}

#[test]
fn note_lookup_filters_by_owner() {
    let store = store_with_three();
    assert_eq!(store.find_note_by_id(1, 7).unwrap().unwrap().title, "first");
    assert_eq!(store.find_note_by_id(2, 8).unwrap().unwrap().title, "second");
    assert!(store.find_note_by_id(2, 7).unwrap().is_none());
    assert!(store.find_note_by_id(1, 8).unwrap().is_none());
    assert!(store.find_note_by_id(4, 7).unwrap().is_none());
}

#[test]
fn note_list_holds_the_owners_notes_in_order() {
    let store = store_with_three();
    let mine: Vec<String> = store.find_all_notes(7).unwrap().into_iter().map(|n| n.title).collect();
    assert_eq!(mine, vec!["first".to_string(), "third".to_string()]);
    let theirs = store.find_all_notes(8).unwrap();
    assert_eq!(theirs.len(), 1);
    assert_eq!(theirs[0].id, 2);
    assert!(store.find_all_notes(9).unwrap().is_empty());
}

#[test]
fn note_update_is_partial() {
    let mut store = store_with_three();
    let after = store.update(1, Some("renamed"), None).unwrap().unwrap();
    assert_eq!(after.title, "renamed");
    assert_eq!(after.content, "a");
    assert_eq!(after.user_id, 7);
    let after = store.update(1, None, Some("body")).unwrap().unwrap();
    assert_eq!(after.title, "renamed");
    assert_eq!(after.content, "body");
    let same = store.update(1, None, None).unwrap().unwrap();
    assert_eq!(same.title, "renamed");
    assert_eq!(same.content, "body");
    assert_eq!(same.updated_at, after.updated_at);
    assert!(store.update(9, Some("x"), None).unwrap().is_none());
    assert_eq!(store.find_note_by_id(2, 8).unwrap().unwrap().title, "second");
}

#[test]
fn note_delete_removes_one_note_and_keeps_ids() {
    let mut store = store_with_three();
    let gone = store.delete(2).unwrap().unwrap();
    assert_eq!(gone.title, "second");
    assert_eq!(store.len(), 2);
    assert!(store.delete(2).unwrap().is_none());
    assert!(store.find_note_by_id(2, 8).unwrap().is_none());
    assert_eq!(store.find_note_by_id(3, 7).unwrap().unwrap().title, "third");
    assert_eq!(store.create(8, "fourth", "d").unwrap().id, 4);
    let first = store.delete(1).unwrap().unwrap();
    assert_eq!(first.id, 1);
    let left: Vec<u128> = store.find_all_notes(7).unwrap().into_iter().map(|n| n.id).collect();
    assert_eq!(left, vec![3]);
}

#[test]
fn note_service_hands_requests_to_the_store() {
    let mut service = NoteService::new(store_with_three());
    assert_eq!(service.create_note(9, "t", "c").unwrap().id, 4);
    assert_eq!(service.find_note_by_id(4, 9).unwrap().unwrap().title, "t");
    assert_eq!(service.find_notes_by_user_id(7).unwrap().len(), 2);
    assert_eq!(service.update_note(4, Some("u"), None).unwrap().unwrap().title, "u");
    assert_eq!(service.delete_note(4).unwrap().unwrap().title, "u");
    assert_eq!(service.note_repository.len(), 3);
}

#[test]
fn create_note_handler_stores_a_valid_note() {
    let mut service = NoteService::new(InMemoryNoteRepository::new());
    let response = create_note(RequireAuth(user(7)), &mut service, body("title", "content")).unwrap();
    assert_eq!(response.note.user_id, 7);
    assert_eq!(response.note.title, "title");
    assert_eq!(response.note.content, "content");
    assert_eq!(service.find_notes_by_user_id(7).unwrap().len(), 1);
}

#[test]
fn create_note_handler_rejects_long_fields() {
    let mut service = NoteService::new(InMemoryNoteRepository::new());
    let long_title = "t".repeat(51);
    let res = create_note(RequireAuth(user(7)), &mut service, body(&long_title, "c"));
    assert_eq!(res.map(|r| r.note.title), Err(Status::BadRequest));
    let long_content = "c".repeat(501);
    let res = create_note(RequireAuth(user(7)), &mut service, body("t", &long_content));
    assert_eq!(res.map(|r| r.note.title), Err(Status::BadRequest));
    assert_eq!(service.note_repository.len(), 0);
    let edge = create_note(RequireAuth(user(7)), &mut service, body(&"t".repeat(50), &"c".repeat(500)));
    assert!(edge.is_ok());
    assert_eq!(service.note_repository.len(), 1);
}

#[test]
fn find_note_handler_serves_only_the_owner() {
    let service = NoteService::new(store_with_three());
    let mine = find_note_by_id(RequireAuth(user(7)), &service, 1).unwrap();
    assert_eq!(mine.note.title, "first");
    assert_eq!(mine.note.user_id, 7);
    let other = find_note_by_id(RequireAuth(user(8)), &service, 1).map(|r| r.note.title);
    assert_eq!(other, Err(Status::NotFound));
    let missing = find_note_by_id(RequireAuth(user(7)), &service, 99).map(|r| r.note.title);
    assert_eq!(missing, Err(Status::NotFound));
}

#[test]
fn find_all_notes_handler_lists_the_owners_notes() {
    let service = NoteService::new(store_with_three());
    let list = find_all_notes(RequireAuth(user(7)), &service).unwrap();
    assert_eq!(list.notes.len(), 2);
    assert_eq!(list.notes[0].title, "first");
    assert_eq!(list.notes[1].title, "third");
    assert!(list.notes.iter().all(|n| n.user_id == 7));
    let none = find_all_notes(RequireAuth(user(1)), &service).unwrap();
    assert!(none.notes.is_empty());
}
