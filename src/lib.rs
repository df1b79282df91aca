//! A small student registry: identifiers, an in-memory document collection
//! with store-assigned identifiers, and the mapping from HTTP requests to
//! collection operations and back to responses.

pub mod object_id;
pub mod student;
pub mod error;
pub mod gateway;
pub mod collection;
pub mod routes;
pub mod laws;
