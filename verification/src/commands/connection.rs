//! The session: connecting, disconnecting, and asking whether a connection
//! is there.
//!
//! The session is `Disconnected` or `Connected`. Opening and closing the pool
//! is the caller's work; what the session becomes is decided here.

use vstd::prelude::*;
use crate::db::connection::DatabaseConnection;
use crate::error::{AppError, ErrorView};
use crate::state::AppState;
use crate::types::connection::ConnectionConfig;

verus! {

/// What the driver reported of an attempt: that it went well, or why not.
pub open spec fn failure(outcome: Result<(), String>) -> Option<Seq<char>> {
    match outcome {
        Ok(_) => None,
        Err(report) => Some(report@),
    }
}

/// Whether a connection may be opened now: not while one exists. To be asked
/// before the pool is opened, so that a refused request opens nothing.
pub fn may_connect(state: &AppState) -> (res: Result<(), AppError>)
    ensures
        state.connection is None ==> res is Ok,
        state.connection is Some ==> (res matches Err(e) && e@ == ErrorView::AlreadyConnected),
{
    if state.connection.is_some() {
        Err(AppError::AlreadyConnected)
    } else {
        Ok(())
    }
}

/// Connects. `outcome` is what opening the pool for `config` came to. While
/// a connection exists the request is refused and nothing changes; a failure
/// to open is a database error and nothing changes; otherwise the session is
/// connected with `config`, and its id is returned.
pub fn connect(state: &mut AppState, config: ConnectionConfig, outcome: Result<(), String>) -> (res:
    Result<String, AppError>)
    ensures
        old(state).connection is Some ==> {
            &&& res matches Err(e) && e@ == ErrorView::AlreadyConnected
            &&& *final(state) == *old(state)
        },
        old(state).connection is None && outcome is Err ==> {
            &&& res matches Err(e) && e@ == ErrorView::Database(outcome->Err_0@)
            &&& *final(state) == *old(state)
        },
        old(state).connection is None && outcome is Ok ==> {
            &&& res matches Ok(id) && id@ == config.id@
            &&& final(state).connection == Some(DatabaseConnection { config })
        },
{
    if state.connection.is_some() {
        return Err(AppError::AlreadyConnected);
    }
    match outcome {
        Err(report) => Err(AppError::Database(report)),
        Ok(_) => {
            let id = config.id.clone();
            state.connection = Some(DatabaseConnection { config });
            Ok(id)
        },
    }
}

/// Disconnects. Returns whether a connection was there, whose pool the
/// caller now closes; without one this does nothing and is no error.
pub fn disconnect(state: &mut AppState) -> (was_connected: bool)
    ensures
        final(state).connection is None,
        was_connected == old(state).connection is Some,
{
    let was_connected = state.connection.is_some();
    state.connection = None;
    was_connected
}

/// The display name of the active connection, if there is one.
pub fn get_connection_status(state: &AppState) -> (name: Option<String>)
    ensures
        state.connection is None ==> name is None,
        state.connection matches Some(live) ==> (name matches Some(n) && n@ == live.config.name@),
{
    match &state.connection {
        Some(live) => Some(live.config.name.clone()),
        None => None,
    }
}

/// The connection that an operation works on, or `NotConnected`.
pub fn require_connection(state: &AppState) -> (res: Result<&DatabaseConnection, AppError>)
    ensures
        state.connection is None ==> (res matches Err(e) && e@ == ErrorView::NotConnected),
        state.connection matches Some(live) ==> (res matches Ok(found) && *found == live),
{
    match &state.connection {
        Some(live) => Ok(live),
        None => Err(AppError::NotConnected),
    }
}

/// The result of a probe: `outcome` is what opening a pool of its own,
/// running the liveness statement and closing the pool came to. The session
/// is not touched.
pub fn test_connection(outcome: Result<(), String>) -> (res: Result<bool, AppError>)
    ensures
        outcome is Ok ==> res == Ok::<bool, AppError>(true),
        outcome is Err ==> (res matches Err(e) && e@ == ErrorView::Database(outcome->Err_0@)),
{
    match outcome {
        Ok(_) => Ok(true),
        Err(report) => Err(AppError::Database(report)),
    }
}

} // verus!
