//! The bodies of requests and responses.

pub mod auth_schemas;
pub mod note_schemas;
pub mod validation;
