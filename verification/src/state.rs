//! The one piece of state that outlives a request: the session, which is
//! either absent or one live connection.

use vstd::prelude::*;
use crate::db::connection::DatabaseConnection;

verus! {

/// The state of the engine. At most one connection exists at any time.
#[derive(Debug)]
pub struct AppState {
    pub connection: Option<DatabaseConnection>,
}

impl AppState {
    /// The state at start: no connection.
    pub fn new() -> (state: AppState)
        ensures
            state.connection is None,
    {
        AppState { connection: None }
    }
}

impl Default for AppState {
    fn default() -> (state: AppState)
        ensures
            state.connection is None,
    {
        AppState::new()
    }
}

} // verus!
