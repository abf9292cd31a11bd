//! The instructions given to the model, and the cleaning of its answer.

use vstd::prelude::*;
use vstd::string::*;
use crate::text::{
    owned, trim, trim_end_matches, trim_start_matches, trimmed, without_prefixes, without_suffixes,
};
use crate::types::ai::AiProvider;

verus! {

/// Which model to ask, and how to reach it.
#[derive(Debug, Clone, PartialEq)]
pub struct AiConfig {
    pub provider: AiProvider,
    pub claude_api_key: Option<String>,
    pub ollama_base_url: Option<String>,
    pub ollama_model: Option<String>,
}

/// Where a local model listens unless told otherwise.
pub const DEFAULT_OLLAMA_URL: &'static str = "http://localhost:11434";

/// The local model asked unless told otherwise.
pub const DEFAULT_OLLAMA_MODEL: &'static str = "llama3";

impl Default for AiConfig {
    fn default() -> (config: AiConfig)
        ensures
            config.provider == AiProvider::Claude,
            config.claude_api_key is None,
            config.ollama_base_url matches Some(url) && url@ == DEFAULT_OLLAMA_URL@,
            config.ollama_model matches Some(model) && model@ == DEFAULT_OLLAMA_MODEL@,
    {
        AiConfig {
            provider: AiProvider::Claude,
            claude_api_key: None,
            ollama_base_url: Some(String::from_str(DEFAULT_OLLAMA_URL)),
            ollama_model: Some(String::from_str(DEFAULT_OLLAMA_MODEL)),
        }
    }
}

/// What the instructions say before the schema.
pub const PROMPT_HEAD: &'static str = "You are a PostgreSQL expert. Generate SQL queries based on user requests.\n\nRules:\n- Only output the SQL query, no explanations\n- Use proper PostgreSQL syntax\n- Use the exact table and column names from the schema\n- For SELECT queries, be specific about columns when possible\n- Always use proper JOIN syntax when relating tables\n\nDatabase Schema:\n";

/// What the instructions say after the schema.
pub const PROMPT_TAIL: &'static str = "\n\nGenerate a single SQL query that answers the user's request.";

/// The instructions for the model: the rules, the schema as text, and the
/// task.
pub fn build_system_prompt(schema_context: &str) -> (prompt: String)
    ensures
        prompt@ == PROMPT_HEAD@ + schema_context@ + PROMPT_TAIL@,
{
    let mut prompt = String::from_str(PROMPT_HEAD);
    prompt.append(schema_context);
    prompt.append(PROMPT_TAIL);
    prompt
}

/// An answer without the code fence that models like to put around it: the
/// whitespace around the answer goes, then every opening fence with or
/// without the word `sql`, then every closing fence, then the whitespace that
/// is left around the statement.
pub open spec fn cleaned(answer: Seq<char>) -> Seq<char> {
    trimmed(
        without_suffixes(
            without_prefixes(without_prefixes(trimmed(answer), "```sql"@), "```"@),
            "```"@,
        ),
    )
}

/// Takes the statement out of a model's answer.
pub fn clean_sql_response(answer: &str) -> (sql: String)
    ensures
        sql@ == cleaned(answer@),
{
    proof {
        reveal_strlit("```sql");
        reveal_strlit("```");
    }
    let bare = trim(answer);
    let unfenced = trim_start_matches(bare, "```sql");
    let unfenced = trim_start_matches(unfenced, "```");
    let unfenced = trim_end_matches(unfenced, "```");
    owned(trim(unfenced))
}

} // verus!
