//! The OpenAI Responses suite.
pub mod call_laws;
pub mod decoder;
pub mod encoder;
pub mod formatter;
pub mod laws;
pub mod parser;
pub mod request_laws;
pub mod response_laws;
pub mod responses;
pub mod stream;
pub mod stream_laws;
