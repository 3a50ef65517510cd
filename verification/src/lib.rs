//! A small user service core: identifiers and their text form, a repository
//! capability with an in-memory example, and the mapping from repository
//! errors to HTTP status codes and JSON error bodies.

pub mod ident;
pub mod repo;
pub mod error;
pub mod handlers;
