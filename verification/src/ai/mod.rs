//! Turning a sentence into a statement with the help of a language model:
//! what the model is told, and what is kept of its answer. The request
//! itself is the caller's to send.

pub mod claude;
pub mod ollama;
pub mod prompt;

pub use crate::types::ai::AiProvider;
pub use prompt::{build_system_prompt, clean_sql_response, AiConfig};
