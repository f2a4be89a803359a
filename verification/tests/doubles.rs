use notes_auth::auth::RequireAuth;
use notes_auth::handlers::auth::{login_error_status, register_error_status};
use notes_auth::handlers::note::{create_note, find_all_notes, find_note_by_id};
use notes_auth::repositories::traits::{NoteRecords, UserRecords};
use notes_auth::repositories::StoreError;
use notes_auth::schemas::note_schemas::{CreateNoteData, CreateNoteRequest};
use notes_auth::status::Status;
use notes_auth::{
    AuthConfig, AuthError, AuthService, AuthServiceTrait, Note, NoteRepositoryTrait, NoteService, User,
    UserRepositoryTrait, UserService, UserServiceTrait,
};

/// A store that never answers.
struct DownStore;

impl UserRepositoryTrait for DownStore {
    fn users(&self) -> UserRecords {
        unreachable!()
    }

    fn reliable(&self) -> bool {
        false
    }

    fn create(&mut self, _: &str, _: &str, _: &str) -> Result<User, StoreError> {
        Err(StoreError::Unavailable)
    }

    fn find_by_id(&self, _: u128) -> Result<Option<User>, StoreError> {
        Err(StoreError::Unavailable)
    }

    fn find_by_email(&self, _: &str) -> Result<Option<User>, StoreError> {
        Err(StoreError::Unavailable)
    }

    fn find_by_username(&self, _: &str) -> Result<Option<User>, StoreError> {
        Err(StoreError::Unavailable)
    }

    fn update(
        &mut self,
        _: u128,
        _: Option<&str>,
        _: Option<&str>,
        _: Option<&str>,
        _: Option<&str>,
    ) -> Result<Option<User>, StoreError> {
        Err(StoreError::Unavailable)
    }
}

/// A store whose lookups find nothing while its insert meets a record that
/// another writer has just stored.
struct RacedStore;

impl UserRepositoryTrait for RacedStore {
    fn users(&self) -> UserRecords {
        unreachable!()
    }

    fn reliable(&self) -> bool {
        false
    }

    fn create(&mut self, _: &str, _: &str, _: &str) -> Result<User, StoreError> {
        Err(StoreError::AlreadyExists)
    }

    fn find_by_id(&self, _: u128) -> Result<Option<User>, StoreError> {
        Ok(None)
    }

    fn find_by_email(&self, _: &str) -> Result<Option<User>, StoreError> {
        Ok(None)
    }

    fn find_by_username(&self, _: &str) -> Result<Option<User>, StoreError> {
        Ok(None)
    }

    fn update(
        &mut self,
        _: u128,
        _: Option<&str>,
        _: Option<&str>,
        _: Option<&str>,
        _: Option<&str>,
    ) -> Result<Option<User>, StoreError> {
        Ok(None)
    }
}

/// A note store that never answers.
struct DownNotes;

impl NoteRepositoryTrait for DownNotes {
    fn notes(&self) -> NoteRecords {
        unreachable!()
    }

    fn create(&mut self, _: u128, _: &str, _: &str) -> Result<Note, StoreError> {
        Err(StoreError::Unavailable)
    }

    fn find_note_by_id(&self, _: u128, _: u128) -> Result<Option<Note>, StoreError> {
        Err(StoreError::Unavailable)
    }

    fn find_all_notes(&self, _: u128) -> Result<Vec<Note>, StoreError> {
        Err(StoreError::Unavailable)
    }

    fn update(&mut self, _: u128, _: Option<&str>, _: Option<&str>) -> Result<Option<Note>, StoreError> {
        Err(StoreError::Unavailable)
    }

    fn delete(&mut self, _: u128) -> Result<Option<Note>, StoreError> {
        Err(StoreError::Unavailable)
    }
}

fn someone() -> User {
    User {
        id: 5,
        username: "eve".to_string(),
        email: "e@x.com".to_string(),
        password_hash: "hash".to_string(),
        bio: None,
        image: None,
        created_at: 0,
        updated_at: 0,
    }
}

#[test]
fn register_on_a_store_that_is_down_is_a_database_error() {
    let mut auth = AuthService::with_config(
        UserService::new(DownStore),
        &AuthConfig { jwt_secret: "k".to_string(), hash_cost: 4 },
    );
    let err = auth.register_user("alice", "a@x.com", "pw").unwrap_err();
    assert_eq!(err, AuthError::DatabaseError(StoreError::Unavailable));
    assert_eq!(register_error_status(err), Status::InternalServerError);
}

#[test]
fn login_on_a_store_that_is_down_is_a_database_error() {
    let auth = AuthService::with_config(
        UserService::new(DownStore),
        &AuthConfig { jwt_secret: "k".to_string(), hash_cost: 4 },
    );
    let err = auth.login_user("a@x.com", "pw").unwrap_err();
    assert_eq!(err, AuthError::DatabaseError(StoreError::Unavailable));
    assert_eq!(login_error_status(err), Status::InternalServerError);
}

#[test]
fn register_that_loses_a_race_is_already_exists() {
    let mut auth = AuthService::with_config(
        UserService::new(RacedStore),
        &AuthConfig { jwt_secret: "k".to_string(), hash_cost: 4 },
    );
    let err = auth.register_user("alice", "a@x.com", "pw").unwrap_err();
    assert_eq!(err, AuthError::UserAlreadyExists);
    assert_eq!(register_error_status(err), Status::Conflict);
}

#[test]
fn resolver_on_a_store_that_is_down_is_an_internal_error() {
    let auth = AuthService::with_config(
        UserService::new(DownStore),
        &AuthConfig { jwt_secret: "k".to_string(), hash_cost: 4 },
    );
    let token = auth.generate_token(5).unwrap();
    let header = format!("Token {}", token);
    let res = RequireAuth::from_request_parts(Some(&header), &auth, auth.user_service());
    assert_eq!(res.map(|r| r.0.id), Err(Status::InternalServerError));
    // without a valid token the store is never asked
    let res = RequireAuth::from_request_parts(Some("Token junk"), &auth, auth.user_service());
    assert_eq!(res.map(|r| r.0.id), Err(Status::Unauthorized));
    let res = RequireAuth::from_request_parts(None, &auth, auth.user_service());
    assert_eq!(res.map(|r| r.0.id), Err(Status::Unauthorized));
}

#[test]
fn directory_passes_store_failures_on() {
    let mut directory = UserService::new(DownStore);
    assert_eq!(directory.find_user_by_id(1).map(|u| u.is_some()), Err(StoreError::Unavailable));
    assert_eq!(
        directory.update_user(1, None, None, None, None).map(|u| u.is_some()),
        Err(StoreError::Unavailable)
    );
    assert_eq!(
        directory.create_user("a", "b", "c").map(|u| u.id),
        Err(StoreError::Unavailable)
    );
}

#[test]
fn note_handlers_on_a_store_that_is_down_are_internal_errors() {
    let mut service = NoteService::new(DownNotes);
    let body = CreateNoteRequest {
        note: CreateNoteData { title: "t".to_string(), content: "c".to_string() },
    };
    let created = create_note(RequireAuth(someone()), &mut service, body);
    assert_eq!(created.map(|r| r.note.title), Err(Status::InternalServerError));
    let found = find_note_by_id(RequireAuth(someone()), &service, 1);
    assert_eq!(found.map(|r| r.note.title), Err(Status::InternalServerError));
    let listed = find_all_notes(RequireAuth(someone()), &service);
    assert_eq!(listed.map(|r| r.notes.len()), Err(Status::InternalServerError));
    // a body beyond the limits is refused before the store is asked
    let long = CreateNoteRequest {
        note: CreateNoteData { title: "t".repeat(51), content: "c".to_string() },
    };
    let refused = create_note(RequireAuth(someone()), &mut service, long);
    assert_eq!(refused.map(|r| r.note.title), Err(Status::BadRequest));
}
