//! The objects of the backend's API.

pub mod response;

pub use self::response::Response;
