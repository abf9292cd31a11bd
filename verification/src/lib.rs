//! A relational-database introspection and data-manipulation engine.
//!
//! Given a live connection to a server, the engine discovers the structure of
//! the database, reads pages of any table without knowing its schema in
//! advance, and inserts, updates and deletes rows that are identified only by
//! the primary keys it discovered.
//!
//! This crate holds every decision of the engine and none of its input and
//! output. A caller sends the statements and hands back what the server
//! answered; what to send, and what the answers mean, is decided here:
//!
//! - [`db::sql_utils`]: the one path by which a name may enter SQL text.
//! - [`db::row_utils`] and [`db::bind`]: the two directions of the value
//!   codec, from server values to dynamic values and from dynamic values to
//!   parameters.
//! - [`db::row_id`]: what identifies a row.
//! - [`db::statements`]: the statements and their parameters.
//! - [`commands`]: the operations, each as the decisions between two round
//!   trips, among them the walk over the catalog and the session.
//!
//! Every function is verified against its contract. The few functions of
//! `std`, `chrono` and `uuid` that are relied on without proof stand in
//! [`text`] and [`db::formats`], each with what is relied on.

pub mod ai;
pub mod commands;
pub mod db;
pub mod error;
pub mod state;
pub mod text;
pub mod types;
