//! The envelopes exchanged with the backend.

pub mod fields;
pub mod request;
pub mod response;

pub use self::request::Request;
pub use self::response::Response;
