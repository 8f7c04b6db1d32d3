//! The OpenAI-compatible suite: Chat Completions and Embeddings.
pub mod chat_completions;
pub mod decoder;
pub mod embeddings;
pub mod encoder;
pub mod end_laws;
pub mod history;
pub mod history_laws;
pub mod laws;
pub mod reading_laws;
pub mod request_laws;
pub mod stream;
pub mod types;
pub mod writing_laws;
