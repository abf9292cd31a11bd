//! The settings that a user keeps between runs. Reading and writing the file
//! is the caller's work.

use vstd::prelude::*;

verus! {

#[derive(Debug, Clone, PartialEq)]
pub struct AppSettings {
    pub ai_provider: Option<String>,
    pub claude_api_key: Option<String>,
    pub ollama_base_url: Option<String>,
    pub ollama_model: Option<String>,
}

impl Default for AppSettings {
    fn default() -> (settings: AppSettings)
        ensures
            settings.ai_provider is None,
            settings.claude_api_key is None,
            settings.ollama_base_url is None,
            settings.ollama_model is None,
    {
        AppSettings {
            ai_provider: None,
            claude_api_key: None,
            ollama_base_url: None,
            ollama_model: None,
        }
    }
}

} // verus!
