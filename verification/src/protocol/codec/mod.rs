//! Wire codecs, one directory per protocol suite.
pub mod anthropic_messages;
pub mod correlation;
pub mod correlation_laws;
pub mod google_generative;
pub mod openai_compatible;
pub mod openai_responses;
pub mod reasoning;
pub mod tool_correlation;
