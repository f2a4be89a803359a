//! The records that the service stores.

pub mod note;
pub mod user;

pub use note::{Note, NoteView};
pub use user::{User, UserView};
