//! What a session can ask of the service.
pub mod ticker;
