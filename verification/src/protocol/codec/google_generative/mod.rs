//! The Google Generative AI suite.
pub mod decoder;
pub mod encoder;
pub mod generate_content;
pub mod laws;
pub mod reading_laws;
pub mod request_laws;
pub mod stream;
pub mod types;
pub mod writing_laws;
