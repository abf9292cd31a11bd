use dbpilot::db::sql_utils::{quote_identifier, safe_identifier, safe_table_ref, validate_identifier};
use dbpilot::error::AppError;

#[test]
fn test_valid_identifiers() {
    assert!(validate_identifier("users").is_ok());
    assert!(validate_identifier("_private").is_ok());
    assert!(validate_identifier("table_name").is_ok());
    assert!(validate_identifier("Table123").is_ok());
    assert!(validate_identifier("public").is_ok());
}

#[test]
fn test_invalid_identifiers() {
    assert!(validate_identifier("").is_err());
    assert!(validate_identifier("123abc").is_err());
    assert!(validate_identifier("table-name").is_err());
    assert!(validate_identifier("table name").is_err());
    assert!(validate_identifier("table;drop").is_err());
    assert!(validate_identifier("table\"quote").is_err());
    assert!(validate_identifier("table'quote").is_err());
}

#[test]
fn test_safe_table_ref() {
    let result = safe_table_ref("public", "users").unwrap();
    assert_eq!(result, "\"public\".\"users\"");
}

#[test]
fn test_injection_attempt() {
    // Attempting SQL injection via schema name
    assert!(safe_table_ref("public\"; DROP TABLE users; --", "users").is_err());
    // Attempting SQL injection via table name
    assert!(safe_table_ref("public", "users\"; DROP TABLE users; --").is_err());
}

fn rejection(name: &str) -> String {
    match validate_identifier(name) {
        Err(AppError::InvalidConfig(text)) => text,
        other => panic!("expected a refusal, got {:?}", other),
    }
}

#[test]
fn accepted_name_is_handed_back_unchanged() {
    assert_eq!(validate_identifier("order_items").unwrap(), "order_items");
}

#[test]
fn refusals_say_why() {
    assert_eq!(rejection(""), "Identifier cannot be empty");
    assert_eq!(rejection(&"a".repeat(129)), "Identifier too long (max 128 characters)");
    assert_eq!(
        rejection("1st"),
        "Invalid identifier '1st': must start with a letter or underscore"
    );
    assert_eq!(
        rejection("a-b c"),
        "Invalid identifier 'a-b c': contains invalid character '-'"
    );
}

#[test]
fn length_is_counted_in_characters() {
    let longest = "é".repeat(128);
    assert!(validate_identifier(&longest).is_ok());
    let too_long = "é".repeat(129);
    assert!(validate_identifier(&too_long).is_err());
    assert!(validate_identifier(&"a".repeat(128)).is_ok());
}

#[test]
fn letters_and_digits_beyond_ascii_are_accepted() {
    assert!(validate_identifier("straße").is_ok());
    assert!(validate_identifier("表1").is_ok());
    assert!(validate_identifier("a٣").is_ok());
    assert!(validate_identifier("٣a").is_err());
}

#[test]
fn dangerous_characters_are_refused_anywhere() {
    for name in ["a;b", "a\"b", "a'b", "a b", "a\tb", "a\nb", "a\rb", "9lives", ";", " x"] {
        assert!(validate_identifier(name).is_err(), "{:?}", name);
    }
}

#[test]
fn quoting_wraps_in_one_pair_of_quotes() {
    assert_eq!(quote_identifier("users"), "\"users\"");
    assert_eq!(quote_identifier(""), "\"\"");
    let quoted = safe_identifier("Table_1").unwrap();
    assert_eq!(quoted, "\"Table_1\"");
    assert_eq!(quoted.matches('"').count(), 2);
}

#[test]
fn table_ref_reports_the_schema_first() {
    match safe_table_ref("bad schema", "bad table") {
        Err(AppError::InvalidConfig(text)) => {
            assert_eq!(text, "Invalid identifier 'bad schema': contains invalid character ' '")
        }
        other => panic!("expected a refusal, got {:?}", other),
    }
    match safe_table_ref("public", "") {
        Err(AppError::InvalidConfig(text)) => assert_eq!(text, "Identifier cannot be empty"),
        other => panic!("expected a refusal, got {:?}", other),
    }
}

#[test]
fn error_messages_carry_their_prefix() {
    assert_eq!(AppError::AlreadyConnected.message(), "Already connected");
    assert_eq!(AppError::NotConnected.message(), "Not connected");
    assert_eq!(AppError::Database("boom".to_string()).message(), "Database error: boom");
    assert_eq!(
        AppError::InvalidConfig("x".to_string()).message(),
        "Invalid configuration: x"
    );
    assert_eq!(AppError::ConnectionNotFound("c".to_string()).message(), "Connection not found: c");
    assert_eq!(AppError::ExportError("e".to_string()).message(), "Export error: e");
    assert_eq!(AppError::AiError("a".to_string()).message(), "AI error: a");
    assert_eq!(AppError::ConfigError("f".to_string()).message(), "Config error: f");
}
