//! Typed model of a paged streaming-service catalogue: a lazy pagination cursor,
//! polymorphic media collections, context binding and stream-variant tables.
pub mod common;
pub mod context;
pub mod decode;
pub mod endpoint;
pub mod error;
pub mod json;
pub mod locale;
pub mod media;
pub mod pagination;
pub mod stream;
