//! Admission control for protected routes.

pub mod middleware;

pub use middleware::RequireAuth;
