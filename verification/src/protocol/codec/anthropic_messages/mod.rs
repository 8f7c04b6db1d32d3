//! The Anthropic Messages suite.
pub mod body_laws;
pub mod decoder;
pub mod encoder;
pub mod laws;
pub mod messages;
pub mod request_laws;
pub mod response_laws;
pub mod stream;
pub mod stream_laws;
pub mod types;
