use dbpilot::commands::connections::{
    delete_connection, get_connection_password, get_default_connection, keyring_account,
    load_connections, save_connection, set_default_connection, KeyringOutcome, KEYRING_SERVICE,
};
use dbpilot::error::AppError;
use dbpilot::types::connection::{SaveConnectionInput, SavedConnection, SslMode};

fn saved(id: &str, name: &str, is_default: bool) -> SavedConnection {
    SavedConnection {
        id: id.to_string(),
        name: name.to_string(),
        host: "localhost".to_string(),
        port: 5432,
        database: "db".to_string(),
        username: "u".to_string(),
        ssl_mode: SslMode::Disable,
        is_default,
    }
}

fn input(id: &str, name: &str, is_default: bool) -> SaveConnectionInput {
    SaveConnectionInput {
        id: id.to_string(),
        name: name.to_string(),
        host: "example.org".to_string(),
        port: 6543,
        database: "prod".to_string(),
        username: "root".to_string(),
        password: "pw".to_string(),
        ssl_mode: SslMode::Require,
        is_default,
    }
}

fn as_saved(i: &SaveConnectionInput) -> SavedConnection {
    SavedConnection {
        id: i.id.clone(),
        name: i.name.clone(),
        host: i.host.clone(),
        port: i.port,
        database: i.database.clone(),
        username: i.username.clone(),
        ssl_mode: i.ssl_mode,
        is_default: i.is_default,
    }
}

#[test]
fn keyring_names() {
    assert_eq!(KEYRING_SERVICE, "dbpilot");
    assert_eq!(keyring_account("42"), "connection-42");
    assert_eq!(keyring_account(""), "connection-");
}

#[test]
fn a_missing_password_is_no_error() {
    assert_eq!(get_connection_password(KeyringOutcome::Found("pw".to_string())).unwrap(), Some("pw".to_string()));
    assert_eq!(get_connection_password(KeyringOutcome::NoEntry).unwrap(), None);
    match get_connection_password(KeyringOutcome::Failed("locked".to_string())) {
        Err(AppError::ConfigError(text)) => assert_eq!(text, "Failed to get password: locked"),
        other => panic!("{:?}", other),
    }
}

#[test]
fn a_new_connection_goes_to_the_end() {
    let list = vec![saved("a", "A", true), saved("b", "B", false)];
    let new = input("c", "C", false);
    assert_eq!(
        save_connection(&list, &new),
        vec![saved("a", "A", true), saved("b", "B", false), as_saved(&new)]
    );
    assert_eq!(save_connection(&vec![], &new), vec![as_saved(&new)]);
}

#[test]
fn a_known_connection_is_replaced_in_place() {
    let list = vec![saved("a", "A", false), saved("b", "B", true), saved("c", "C", false)];
    let new = input("b", "B2", false);
    assert_eq!(
        save_connection(&list, &new),
        vec![saved("a", "A", false), as_saved(&new), saved("c", "C", false)]
    );
}

#[test]
fn a_new_default_unsets_the_others() {
    let list = vec![saved("a", "A", true), saved("b", "B", true), saved("c", "C", false)];
    let new = input("c", "C2", true);
    assert_eq!(
        save_connection(&list, &new),
        vec![saved("a", "A", false), saved("b", "B", false), as_saved(&new)]
    );
    let added = input("d", "D", true);
    assert_eq!(
        save_connection(&list, &added),
        vec![saved("a", "A", false), saved("b", "B", false), saved("c", "C", false), as_saved(&added)]
    );
}

#[test]
fn only_the_first_of_twins_is_replaced() {
    let list = vec![saved("x", "first", false), saved("x", "second", true)];
    let new = input("x", "new", false);
    assert_eq!(save_connection(&list, &new), vec![as_saved(&new), saved("x", "second", true)]);
}

#[test]
fn loading_gives_the_list() {
    let list = vec![saved("a", "A", true), saved("b", "B", false)];
    assert_eq!(load_connections(&list), list);
    assert!(load_connections(&vec![]).is_empty());
}

#[test]
fn deleting_takes_every_connection_of_that_id() {
    let list = vec![saved("a", "A", true), saved("b", "B", false), saved("a", "A2", false)];
    assert_eq!(delete_connection(&list, "a"), vec![saved("b", "B", false)]);
    assert_eq!(delete_connection(&list, "zz"), list);
    assert!(delete_connection(&vec![], "a").is_empty());
}

#[test]
fn setting_the_default_unsets_all_others() {
    let list = vec![saved("a", "A", true), saved("b", "B", false), saved("c", "C", true)];
    assert_eq!(
        set_default_connection(&list, "b"),
        vec![saved("a", "A", false), saved("b", "B", true), saved("c", "C", false)]
    );
    assert_eq!(
        set_default_connection(&list, "none"),
        vec![saved("a", "A", false), saved("b", "B", false), saved("c", "C", false)]
    );
}

#[test]
fn the_default_is_the_first_one_marked() {
    let list = vec![saved("a", "A", false), saved("b", "B", true), saved("c", "C", true)];
    assert_eq!(get_default_connection(&list), Some(saved("b", "B", true)));
    assert_eq!(get_default_connection(&vec![saved("a", "A", false)]), None);
    assert_eq!(get_default_connection(&vec![]), None);
}
