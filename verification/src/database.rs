//! Storage models: rows, their lookup semantics, and the in-memory tables
//! the decision logic is verified against.

pub mod favourite_streams;
pub mod stream_management;
