//! Everything that shapes SQL text and reads what the server sends back.

pub mod bind;
pub mod connection;
pub mod formats;
pub mod queries;
pub mod row_id;
pub mod row_utils;
pub mod sql_utils;
pub mod statements;

pub use crate::types::connection::ConnectionConfig;
pub use connection::DatabaseConnection;
