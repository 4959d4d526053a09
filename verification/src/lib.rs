//! Verified core of a small inventory service: a bearer-token authorization
//! gate and a concurrency-safe stock store with insert-or-overwrite semantics.
//!
//! From the raw `Authorization` header and a shared secret, the authorizer
//! decides whether a request may proceed. The store keeps at most one record per
//! product and answers reads and atomic stock upserts. Transport, token
//! cryptography and the relational backend are outside collaborators; the
//! decisions taken on their results are what is specified and proved here.

pub mod api;
pub mod auth;
pub mod errors;
pub mod store;

pub use errors::ApiError;
