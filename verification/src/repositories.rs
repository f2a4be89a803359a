//! The stores: their contracts and implementations held in memory.

pub mod memory;
pub mod note_memory;
pub mod traits;

pub use memory::InMemoryUserRepository;
pub use note_memory::InMemoryNoteRepository;
pub use traits::{NoteRepositoryTrait, StoreError, UserRepositoryTrait};
