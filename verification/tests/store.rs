use notes_auth::repositories::StoreError;
use notes_auth::{InMemoryUserRepository, UserRepositoryTrait, UserService, UserServiceTrait};

fn store_with_two() -> InMemoryUserRepository {
    let mut store = InMemoryUserRepository::new();
    store.create("alice", "a@x.com", "hash-a").unwrap();
    store.create("bob", "b@x.com", "hash-b").unwrap();
    store
}

#[test]
fn new_store_is_empty() {
    let store = InMemoryUserRepository::new();
    assert_eq!(store.len(), 0);
    assert!(store.find_by_id(1).unwrap().is_none());
    assert!(store.find_by_email("a@x.com").unwrap().is_none());
    assert!(store.find_by_username("alice").unwrap().is_none());
}

#[test]
fn create_returns_the_stored_record() {
    let mut store = InMemoryUserRepository::new();
    let user = store.create("alice", "a@x.com", "hash-a").unwrap();
    assert_ne!(user.id, 0);
    assert_eq!(user.id, 1);
    assert_eq!(user.username, "alice");
    assert_eq!(user.email, "a@x.com");
    assert_eq!(user.password_hash, "hash-a");
    assert_eq!(user.bio, None);
    assert_eq!(user.image, None);
    assert_eq!(user.created_at, user.updated_at);
    assert!(user.created_at > 1_577_836_800_000_000);
    assert_eq!(store.len(), 1);
}

#[test]
fn create_rejects_taken_email_and_username() {
    let mut store = store_with_two();
    assert_eq!(store.create("carol", "a@x.com", "h").unwrap_err(), StoreError::AlreadyExists);
    assert_eq!(store.create("bob", "c@x.com", "h").unwrap_err(), StoreError::AlreadyExists);
    assert_eq!(store.len(), 2);
    assert_eq!(store.create("carol", "c@x.com", "h").unwrap().id, 3);
    assert_eq!(store.len(), 3);
}

#[test]
fn create_compares_exactly() {
    let mut store = store_with_two();
    assert!(store.create("Alice", "A@x.com", "h").is_ok());
    assert!(store.create("alice ", "a@x.com ", "h").is_ok());
    assert_eq!(store.len(), 4);
}

#[test]
fn find_by_each_key() {
    let store = store_with_two();
    assert_eq!(store.find_by_id(2).unwrap().unwrap().username, "bob");
    assert_eq!(store.find_by_email("a@x.com").unwrap().unwrap().id, 1);
    assert_eq!(store.find_by_username("bob").unwrap().unwrap().email, "b@x.com");
    assert!(store.find_by_id(0).unwrap().is_none());
    assert!(store.find_by_id(3).unwrap().is_none());
    assert!(store.find_by_email("bob").unwrap().is_none());
    assert!(store.find_by_username("b@x.com").unwrap().is_none());
}

#[test]
fn update_with_nothing_returns_user_unchanged() {
    let mut store = store_with_two();
    let before = store.find_by_id(1).unwrap().unwrap();
    let after = store.update(1, None, None, None, None).unwrap().unwrap();
    assert_eq!(after.id, before.id);
    assert_eq!(after.username, before.username);
    assert_eq!(after.email, before.email);
    assert_eq!(after.password_hash, before.password_hash);
    assert_eq!(after.bio, before.bio);
    assert_eq!(after.image, before.image);
    assert_eq!(after.created_at, before.created_at);
    assert_eq!(after.updated_at, before.updated_at);
}

#[test]
fn update_bio_only_leaves_the_rest() {
    let mut store = store_with_two();
    store.update(2, None, None, None, Some("pic.png")).unwrap();
    let after = store.update(2, None, None, Some("hello"), None).unwrap().unwrap();
    assert_eq!(after.bio.as_deref(), Some("hello"));
    assert_eq!(after.username, "bob");
    assert_eq!(after.email, "b@x.com");
    assert_eq!(after.image.as_deref(), Some("pic.png"));
    assert_eq!(after.password_hash, "hash-b");
    assert_eq!(after.id, 2);
    let stored = store.find_by_id(2).unwrap().unwrap();
    assert_eq!(stored.bio.as_deref(), Some("hello"));
    assert_eq!(store.find_by_id(1).unwrap().unwrap().bio, None);
}

#[test]
fn update_each_field() {
    let mut store = store_with_two();
    let after = store
        .update(1, Some("alicia"), Some("al@x.com"), Some("bio"), Some("img"))
        .unwrap()
        .unwrap();
    assert_eq!(after.username, "alicia");
    assert_eq!(after.email, "al@x.com");
    assert_eq!(after.bio.as_deref(), Some("bio"));
    assert_eq!(after.image.as_deref(), Some("img"));
    assert!(after.updated_at >= after.created_at);
    assert!(store.find_by_username("alice").unwrap().is_none());
    assert_eq!(store.find_by_username("alicia").unwrap().unwrap().id, 1);
    assert_eq!(store.find_by_email("al@x.com").unwrap().unwrap().id, 1);
    assert_eq!(store.len(), 2);
}

#[test]
fn update_of_unknown_id_is_absent() {
    let mut store = store_with_two();
    assert!(store.update(9, Some("zed"), None, None, None).unwrap().is_none());
    assert!(store.find_by_username("zed").unwrap().is_none());
}

#[test]
fn update_rejects_a_name_of_another_user() {
    let mut store = store_with_two();
    assert_eq!(
        store.update(1, Some("bob"), None, None, None).unwrap_err(),
        StoreError::AlreadyExists
    );
    assert_eq!(
        store.update(1, None, Some("b@x.com"), Some("bio"), None).unwrap_err(),
        StoreError::AlreadyExists
    );
    let same = store.find_by_id(1).unwrap().unwrap();
    assert_eq!(same.username, "alice");
    assert_eq!(same.bio, None);
}

#[test]
fn update_to_own_name_is_accepted() {
    let mut store = store_with_two();
    let after = store.update(1, Some("alice"), Some("a@x.com"), None, None).unwrap().unwrap();
    assert_eq!(after.username, "alice");
    assert_eq!(after.email, "a@x.com");
}

#[test]
fn directory_hands_requests_to_the_store() {
    let mut directory = UserService::new(store_with_two());
    assert_eq!(directory.find_user_by_id(1).unwrap().unwrap().username, "alice");
    assert_eq!(directory.find_user_by_email("b@x.com").unwrap().unwrap().id, 2);
    assert_eq!(directory.find_user_by_username("bob").unwrap().unwrap().id, 2);
    assert_eq!(directory.create_user("carol", "c@x.com", "h").unwrap().id, 3);
    assert_eq!(
        directory.create_user("carol", "z@x.com", "h").unwrap_err(),
        StoreError::AlreadyExists
    );
    let after = directory.update_user(3, None, None, Some("b"), None).unwrap().unwrap();
    assert_eq!(after.bio.as_deref(), Some("b"));
    assert_eq!(directory.user_repository.len(), 3);
}

#[test]
fn user_clone_keeps_every_field() {
    let mut store = store_with_two();
    let user = store.update(1, None, None, Some("bio"), None).unwrap().unwrap();
    let copy = user.clone();
    assert_eq!(copy.id, user.id);
    assert_eq!(copy.username, user.username);
    assert_eq!(copy.email, user.email);
    assert_eq!(copy.password_hash, user.password_hash);
    assert_eq!(copy.bio, user.bio);
    assert_eq!(copy.image, user.image);
    assert_eq!(copy.created_at, user.created_at);
    assert_eq!(copy.updated_at, user.updated_at);
}
