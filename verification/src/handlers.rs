//! Request handlers: from a request's values to a response or an outcome.

pub mod auth;
pub mod note;
