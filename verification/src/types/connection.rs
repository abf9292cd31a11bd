//! How to reach a server, and the connections a user has saved.

use vstd::prelude::*;

verus! {

#[derive(Debug, Clone, Copy, PartialEq, Eq, Structural)]
pub enum SslMode {
    Disable,
    Prefer,
    Require,
}

impl Default for SslMode {
    fn default() -> (mode: SslMode)
        ensures
            mode == SslMode::Disable,
    {
        SslMode::Disable
    }
}

/// What is needed to open a connection. The password is never stored or
/// logged by the engine.
#[derive(Debug, Clone, PartialEq)]
pub struct ConnectionConfig {
    pub id: String,
    pub name: String,
    pub host: String,
    pub port: u16,
    pub database: String,
    pub username: String,
    pub password: String,
    pub ssl_mode: SslMode,
}

/// A saved connection, without its password.
#[derive(Debug, Clone, PartialEq)]
pub struct SavedConnection {
    pub id: String,
    pub name: String,
    pub host: String,
    pub port: u16,
    pub database: String,
    pub username: String,
    pub ssl_mode: SslMode,
    pub is_default: bool,
}

#[derive(Debug, Clone, PartialEq)]
pub struct SaveConnectionInput {
    pub id: String,
    pub name: String,
    pub host: String,
    pub port: u16,
    pub database: String,
    pub username: String,
    pub password: String,
    pub ssl_mode: SslMode,
    pub is_default: bool,
}

} // verus!
