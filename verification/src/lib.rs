//! A client for a Kuzzle backend: request and response envelopes, a pluggable
//! transport contract, the decisions of a WebSocket transport, and the
//! orchestrator that turns one request into one response.

pub mod api;
pub mod error;
pub mod json;
pub mod kuzzle;
pub mod protocols;
pub mod types;

pub use self::error::KuzzleError;
pub use self::kuzzle::Kuzzle;
