//! The operations of the engine, each as the decisions it takes between two
//! round trips to the server.

pub mod ai;
pub mod connection;
pub mod connections;
pub mod export;
pub mod query;
pub mod schema;
pub mod schema_walk;
pub mod settings;
pub mod table_data;
