//! The user directory, the note service, and the credential and token
//! authority.

pub mod auth_service;
pub mod note_service;
pub mod traits;
pub mod user_service;

pub use auth_service::{AuthConfig, AuthService};
pub use note_service::NoteService;
pub use traits::{AuthError, AuthServiceTrait, NoteServiceTrait, UserServiceTrait};
pub use user_service::UserService;
