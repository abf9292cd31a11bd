use dbpilot::ai::claude::{
    generate_sql_claude, ClaudeReply, CLAUDE_API_URL, CLAUDE_API_VERSION, CLAUDE_MAX_TOKENS,
};
use dbpilot::ai::ollama::{generate_sql_ollama, ollama_prompt, ollama_url, OllamaReply};
use dbpilot::ai::{build_system_prompt, clean_sql_response, AiConfig, AiProvider};
use dbpilot::commands::ai::{generate_sql, AiCall};
use dbpilot::commands::settings::AppSettings;
use dbpilot::error::AppError;
use dbpilot::types::ai::GenerateSqlRequest;

const LABEL: &str = "Hosted";

#[test]
fn the_prompt_wraps_the_schema() {
    let prompt = build_system_prompt("users(id int, name text)");
    assert!(prompt.starts_with(
        "You are a PostgreSQL expert. Generate SQL queries based on user requests.\n\nRules:\n- Only output the SQL query, no explanations\n"
    ));
    assert!(prompt.contains("\n\nDatabase Schema:\nusers(id int, name text)\n\nGenerate a single SQL query"));
    assert!(prompt.ends_with("Generate a single SQL query that answers the user's request."));
    let empty = build_system_prompt("");
    assert_eq!(empty.len() + "users(id int, name text)".len(), prompt.len());
    assert_eq!(prompt.lines().count(), 13);
}

#[test]
fn answers_lose_their_fences() {
    assert_eq!(clean_sql_response("SELECT 1"), "SELECT 1");
    assert_eq!(clean_sql_response("  SELECT 1;\n"), "SELECT 1;");
    assert_eq!(clean_sql_response("```sql\nSELECT 1;\n```"), "SELECT 1;");
    assert_eq!(clean_sql_response("```\nSELECT 1;\n```\n"), "SELECT 1;");
    assert_eq!(clean_sql_response("\n\n```sql```sql SELECT 1 ``````  "), "SELECT 1");
    assert_eq!(clean_sql_response("```SQL\nSELECT 1\n```"), "SQL\nSELECT 1");
    assert_eq!(clean_sql_response("``SELECT 1``"), "``SELECT 1``");
    assert_eq!(clean_sql_response(""), "");
    assert_eq!(clean_sql_response(" \t\n"), "");
    assert_eq!(clean_sql_response("``````"), "");
    assert_eq!(clean_sql_response("\u{a0}SELECT 1\u{2003}"), "SELECT 1");
}

#[test]
fn the_default_configuration_asks_the_hosted_model() {
    let config = AiConfig::default();
    assert_eq!(config.provider, AiProvider::Claude);
    assert_eq!(config.claude_api_key, None);
    assert_eq!(config.ollama_base_url, Some("http://localhost:11434".to_string()));
    assert_eq!(config.ollama_model, Some("llama3".to_string()));
    let settings = AppSettings::default();
    assert_eq!(
        settings,
        AppSettings { ai_provider: None, claude_api_key: None, ollama_base_url: None, ollama_model: None }
    );
}

fn request(provider: AiProvider) -> GenerateSqlRequest {
    GenerateSqlRequest {
        prompt: "all users".to_string(),
        schema_context: "users(id)".to_string(),
        provider,
        api_key: None,
        ollama_base_url: None,
        ollama_model: None,
    }
}

#[test]
fn the_hosted_model_needs_a_key() {
    match generate_sql(request(AiProvider::Claude), LABEL) {
        Err(AppError::AiError(text)) => assert_eq!(text, "Hosted API key not configured"),
        other => panic!("{:?}", other),
    }
    let mut with_key = request(AiProvider::Claude);
    with_key.api_key = Some("k-123".to_string());
    assert_eq!(
        generate_sql(with_key, LABEL).unwrap(),
        AiCall::Claude {
            api_key: "k-123".to_string(),
            system_prompt: build_system_prompt("users(id)"),
            user_prompt: "all users".to_string(),
        }
    );
}

#[test]
fn the_local_model_falls_back_on_its_defaults() {
    assert_eq!(
        generate_sql(request(AiProvider::Ollama), LABEL).unwrap(),
        AiCall::Ollama {
            base_url: "http://localhost:11434".to_string(),
            model: "llama3".to_string(),
            system_prompt: build_system_prompt("users(id)"),
            user_prompt: "all users".to_string(),
        }
    );
    let mut custom = request(AiProvider::Ollama);
    custom.ollama_base_url = Some("http://10.0.0.2:8080/".to_string());
    custom.ollama_model = Some("mistral".to_string());
    custom.api_key = Some("unused".to_string());
    match generate_sql(custom, LABEL).unwrap() {
        AiCall::Ollama { base_url, model, .. } => {
            assert_eq!(base_url, "http://10.0.0.2:8080/");
            assert_eq!(model, "mistral");
        }
        other => panic!("{:?}", other),
    }
}

#[test]
fn the_hosted_reply_is_its_first_block() {
    let reply = ClaudeReply::Content(vec!["```sql\nSELECT 1\n```".to_string(), "ignored".to_string()]);
    assert_eq!(generate_sql_claude(&reply, LABEL).unwrap(), "SELECT 1");
    assert_eq!(generate_sql_claude(&ClaudeReply::Content(vec![]), LABEL).unwrap(), "");
    match generate_sql_claude(&ClaudeReply::Rejected("overloaded".to_string()), LABEL) {
        Err(AppError::AiError(text)) => assert_eq!(text, "Hosted API error: overloaded"),
        other => panic!("{:?}", other),
    }
    match generate_sql_claude(&ClaudeReply::Unreachable("dns".to_string()), LABEL) {
        Err(AppError::AiError(text)) => assert_eq!(text, "dns"),
        other => panic!("{:?}", other),
    }
    assert_eq!(CLAUDE_API_URL, "https://api.anthropic.com/v1/messages");
    assert_eq!(CLAUDE_API_VERSION, "2023-06-01");
    assert_eq!(CLAUDE_MAX_TOKENS, 1024);
}

#[test]
fn the_local_model_gets_one_prompt_and_one_address() {
    assert_eq!(ollama_prompt("rules", "all users"), "rules\n\nUser request: all users");
    assert_eq!(ollama_url("http://localhost:11434"), "http://localhost:11434/api/generate");
    assert_eq!(ollama_url("http://localhost:11434/"), "http://localhost:11434/api/generate");
    assert_eq!(ollama_url("http://h///"), "http://h/api/generate");
    assert_eq!(ollama_url(""), "/api/generate");
}

#[test]
fn the_local_reply_is_cleaned_or_an_error() {
    assert_eq!(
        generate_sql_ollama(&OllamaReply::Response(" ```\nSELECT 2\n``` ".to_string())).unwrap(),
        "SELECT 2"
    );
    match generate_sql_ollama(&OllamaReply::Rejected("model not found".to_string())) {
        Err(AppError::AiError(text)) => assert_eq!(text, "Ollama API error: model not found"),
        other => panic!("{:?}", other),
    }
    match generate_sql_ollama(&OllamaReply::Unreachable("refused".to_string())) {
        Err(AppError::AiError(text)) => assert_eq!(text, "Ollama connection error: refused"),
        other => panic!("{:?}", other),
    }
    match generate_sql_ollama(&OllamaReply::Unreadable("bad json".to_string())) {
        Err(AppError::AiError(text)) => assert_eq!(text, "bad json"),
        other => panic!("{:?}", other),
    }
}
