//! Stream-preset and favourite-channel management for a streaming platform.
//!
//! The crate holds the decision logic of the service: bearer-token
//! validation, the favourite registry with its duplicate check, the preset
//! store (one title row, many tag rows), the platform client's request
//! builders and response mappers, and the activation workflow that pushes a
//! stored preset to the live channel.  All inputs and outputs are plain
//! values; the surrounding process performs the network and storage calls
//! and feeds their results back in.

use vstd::prelude::*;

pub mod authenticate;
pub mod database;
pub mod favourite_streams;
pub mod service;
pub mod stream_management;
pub mod text;

verus! {

/// Outcome kinds reported to callers, mirroring the HTTP statuses the
/// service answers with.
#[derive(Clone, Copy, Debug, PartialEq, Eq, Structural)]
pub enum Status {
    Okay,
    Created,
    NoContent,
    Unauthorized,
    NotFound,
    Conflict,
    InternalServerError,
}

/// Process-wide configuration, built once at start and passed explicitly.
pub struct GlobalConfig {
    pub auth_url: String,
    pub twitch_client_id: String,
}

} // verus!
