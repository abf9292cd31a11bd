//! The connections that a user has saved: the list and how it changes. The
//! file that holds the list and the keyring that holds the passwords are the
//! caller's.

use vstd::prelude::*;
use vstd::string::*;
use crate::db::row_id::{lemma_position_is, position_of};
use crate::error::{AppError, ErrorView};
use crate::text::owned;
use crate::types::connection::{SaveConnectionInput, SavedConnection};

verus! {

/// The service under which the keyring holds the passwords.
pub const KEYRING_SERVICE: &'static str = "dbpilot";

/// The account under which the keyring holds the password of a connection.
pub fn keyring_account(id: &str) -> (account: String)
    ensures
        account@ == "connection-"@ + id@,
{
    let mut account = String::from_str("connection-");
    account.append(id);
    account
}

/// What asking the keyring for a password came to.
#[derive(Debug, Clone, PartialEq)]
pub enum KeyringOutcome {
    Found(String),
    NoEntry,
    Failed(String),
}

/// The password of a connection, from what the keyring answered. That the
/// keyring has no entry is no error: there is no password then.
pub fn get_connection_password(outcome: KeyringOutcome) -> (res: Result<Option<String>, AppError>)
    ensures
        outcome matches KeyringOutcome::Found(p) ==> (res matches Ok(Some(found)) && found@ == p@),
        outcome is NoEntry ==> res matches Ok(None),
        outcome matches KeyringOutcome::Failed(why) ==> (res matches Err(e) && e@
            == ErrorView::ConfigError("Failed to get password: "@ + why@)),
{
    match outcome {
        KeyringOutcome::Found(p) => Ok(Some(p)),
        KeyringOutcome::NoEntry => Ok(None),
        KeyringOutcome::Failed(why) => {
            let mut text = String::from_str("Failed to get password: ");
            text.append(why.as_str());
            Err(AppError::ConfigError(text))
        },
    }
}

/// The ids of a list of connections, in order.
pub open spec fn ids(connections: Seq<SavedConnection>) -> Seq<Seq<char>> {
    Seq::new(connections.len(), |i: int| connections[i].id@)
}

/// Whether a saved connection holds what was put in, the password left out.
pub open spec fn saves(saved: SavedConnection, input: SaveConnectionInput) -> bool {
    &&& saved.id@ == input.id@
    &&& saved.name@ == input.name@
    &&& saved.host@ == input.host@
    &&& saved.port == input.port
    &&& saved.database@ == input.database@
    &&& saved.username@ == input.username@
    &&& saved.ssl_mode == input.ssl_mode
    &&& saved.is_default == input.is_default
}

/// A connection with its default flag set as given.
pub open spec fn with_default(c: SavedConnection, is_default: bool) -> SavedConnection {
    SavedConnection {
        id: c.id,
        name: c.name,
        host: c.host,
        port: c.port,
        database: c.database,
        username: c.username,
        ssl_mode: c.ssl_mode,
        is_default,
    }
}

fn copy_with_default(c: &SavedConnection, is_default: bool) -> (out: SavedConnection)
    ensures
        out == with_default(*c, is_default),
{
    SavedConnection {
        id: c.id.clone(),
        name: c.name.clone(),
        host: c.host.clone(),
        port: c.port,
        database: c.database.clone(),
        username: c.username.clone(),
        ssl_mode: c.ssl_mode,
        is_default,
    }
}

/// The place at which a saved input stands in the list afterwards: that of
/// the first connection with its id, or the end of the list.
pub open spec fn place_of(connections: Seq<SavedConnection>, id: Seq<char>) -> int {
    match position_of(ids(connections), id) {
        Some(k) => k,
        None => connections.len() as int,
    }
}

/// Saves a connection into the list. It takes the place of the first
/// connection with its id, or is added at the end. If it is to be the
/// default, no other connection stays the default; otherwise the others are
/// as they were.
pub fn save_connection(connections: &Vec<SavedConnection>, input: &SaveConnectionInput) -> (out: Vec<
    SavedConnection,
>)
    ensures
        out@.len() == (if place_of(connections@, input.id@) < connections@.len() {
            connections@.len()
        } else {
            connections@.len() + 1
        }),
        saves(out@[place_of(connections@, input.id@)], *input),
        forall|i: int|
            0 <= i < connections@.len() && i != place_of(connections@, input.id@)
                ==> #[trigger] out@[i] == with_default(
                connections@[i],
                connections@[i].is_default && !input.is_default,
            ),
{
    let mut out: Vec<SavedConnection> = Vec::new();
    let mut placed = false;
    let mut i: usize = 0;
    while i < connections.len()
        invariant
            0 <= i <= connections@.len(),
            out@.len() == i,
            !placed ==> forall|j: int| 0 <= j < i ==> #[trigger] ids(connections@)[j] != input.id@,
            placed ==> 0 <= place_of(connections@, input.id@) < i,
            placed ==> saves(out@[place_of(connections@, input.id@)], *input),
            forall|j: int|
                0 <= j < i && (!placed || j != place_of(connections@, input.id@))
                    ==> #[trigger] out@[j] == with_default(
                    connections@[j],
                    connections@[j].is_default && !input.is_default,
                ),
        decreases connections@.len() - i,
    {
        assert(ids(connections@)[i as int] == connections@[i as int].id@);
        if !placed && connections[i].id == input.id {
            proof {
                lemma_position_is(ids(connections@), input.id@, i as int);
                assert(place_of(connections@, input.id@) == i);
            }
            out.push(
                SavedConnection {
                    id: input.id.clone(),
                    name: input.name.clone(),
                    host: input.host.clone(),
                    port: input.port,
                    database: input.database.clone(),
                    username: input.username.clone(),
                    ssl_mode: input.ssl_mode,
                    is_default: input.is_default,
                },
            );
            placed = true;
        } else {
            let keep = connections[i].is_default && !input.is_default;
            out.push(copy_with_default(&connections[i], keep));
        }
        i += 1;
    }
    if !placed {
        proof {
            lemma_position_is(ids(connections@), input.id@, connections@.len() as int);
        }
        out.push(
            SavedConnection {
                id: input.id.clone(),
                name: input.name.clone(),
                host: input.host.clone(),
                port: input.port,
                database: input.database.clone(),
                username: input.username.clone(),
                ssl_mode: input.ssl_mode,
                is_default: input.is_default,
            },
        );
    }
    out
}

/// The connections of a list, in order: all of them.
pub fn load_connections(connections: &Vec<SavedConnection>) -> (out: Vec<SavedConnection>)
    ensures
        out@ == connections@,
{
    let mut out: Vec<SavedConnection> = Vec::new();
    let mut i: usize = 0;
    while i < connections.len()
        invariant
            0 <= i <= connections@.len(),
            out@ == connections@.take(i as int),
        decreases connections@.len() - i,
    {
        let c = &connections[i];
        out.push(copy_with_default(c, c.is_default));
        assert(out@ =~= connections@.take(i + 1));
        i += 1;
    }
    assert(connections@.take(connections@.len() as int) =~= connections@);
    out
}

/// The connections of a list without those that bear an id, in order.
pub open spec fn without_id(connections: Seq<SavedConnection>, id: Seq<char>) -> Seq<
    SavedConnection,
>
    decreases connections.len(),
{
    if connections.len() == 0 {
        Seq::empty()
    } else if connections.last().id@ == id {
        without_id(connections.drop_last(), id)
    } else {
        without_id(connections.drop_last(), id).push(connections.last())
    }
}

/// Takes every connection with the given id out of the list.
pub fn delete_connection(connections: &Vec<SavedConnection>, id: &str) -> (out: Vec<
    SavedConnection,
>)
    ensures
        out@ == without_id(connections@, id@),
{
    let wanted = owned(id);
    let mut out: Vec<SavedConnection> = Vec::new();
    let mut i: usize = 0;
    assert(connections@.take(0) =~= Seq::empty());
    while i < connections.len()
        invariant
            0 <= i <= connections@.len(),
            wanted@ == id@,
            out@ == without_id(connections@.take(i as int), id@),
        decreases connections@.len() - i,
    {
        assert(connections@.take(i + 1).drop_last() =~= connections@.take(i as int));
        assert(connections@.take(i + 1).last() == connections@[i as int]);
        let c = &connections[i];
        if !(c.id == wanted) {
            out.push(copy_with_default(c, c.is_default));
        }
        i += 1;
    }
    assert(connections@.take(connections@.len() as int) =~= connections@);
    out
}

/// Makes the connections with the given id the default ones and all others
/// not.
pub fn set_default_connection(connections: &Vec<SavedConnection>, id: &str) -> (out: Vec<
    SavedConnection,
>)
    ensures
        out@.len() == connections@.len(),
        forall|i: int|
            0 <= i < connections@.len() ==> #[trigger] out@[i] == with_default(
                connections@[i],
                connections@[i].id@ == id@,
            ),
{
    let wanted = owned(id);
    let mut out: Vec<SavedConnection> = Vec::new();
    let mut i: usize = 0;
    while i < connections.len()
        invariant
            0 <= i <= connections@.len(),
            wanted@ == id@,
            out@.len() == i,
            forall|j: int|
                0 <= j < i ==> #[trigger] out@[j] == with_default(
                    connections@[j],
                    connections@[j].id@ == id@,
                ),
        decreases connections@.len() - i,
    {
        let c = &connections[i];
        let chosen = c.id == wanted;
        out.push(copy_with_default(c, chosen));
        i += 1;
    }
    out
}

/// The first connection of the list that is the default, if there is one.
pub fn get_default_connection(connections: &Vec<SavedConnection>) -> (found: Option<SavedConnection>)
    ensures
        found is None <==> forall|i: int|
            0 <= i < connections@.len() ==> !(#[trigger] connections@[i]).is_default,
        found matches Some(c) ==> exists|k: int|
            0 <= k < connections@.len() && c == #[trigger] connections@[k] && c.is_default
                && forall|j: int| 0 <= j < k ==> !(#[trigger] connections@[j]).is_default,
{
    let mut i: usize = 0;
    while i < connections.len()
        invariant
            0 <= i <= connections@.len(),
            forall|j: int| 0 <= j < i ==> !(#[trigger] connections@[j]).is_default,
        decreases connections@.len() - i,
    {
        if connections[i].is_default {
            let c = copy_with_default(&connections[i], true);
            assert(c == connections@[i as int]);
            return Some(c);
        }
        i += 1;
    }
    None
}

} // verus!
