//! What the backend's API hands back.

pub mod objects;
