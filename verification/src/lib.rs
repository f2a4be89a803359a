//! Token-based authentication for a multi-user note-taking service:
//! account registration, login, bearer tokens, and the resolver of a
//! request's identity.

pub mod auth;
pub mod clock;
pub mod handlers;
pub mod hello;
pub mod ident;
pub mod laws;
pub mod models;
pub mod password;
pub mod repositories;
pub mod schemas;
pub mod services;
pub mod status;
pub mod token;

pub use models::Note;
pub use models::User;
pub use repositories::{
    InMemoryNoteRepository, InMemoryUserRepository, NoteRepositoryTrait, UserRepositoryTrait,
};
pub use services::{
    AuthConfig, AuthError, AuthService, AuthServiceTrait, NoteService, NoteServiceTrait, UserService,
    UserServiceTrait,
};
