//! Decisions of the game server at start-up and when a client connects.
use vstd::prelude::*;
use vstd::string::*;

verus! {

/// Seconds of silence after which the server drops a client.
pub const CLIENT_TIMEOUT_SECS: i32 = 300;

/// The file in the server's working directory that always receives the
/// certificate digest.
pub open spec fn local_digest_file() -> Seq<char> {
    "digest.txt"@
}

/// Where the server writes its certificate digest: the local digest file,
/// then the path given on its command line, if any, where clients can fetch
/// it.
pub fn digest_publication_paths(published_path: Option<String>) -> (paths: Vec<String>)
    ensures
        paths@.len() == (if published_path is Some { 2int } else { 1int }),
        paths@[0]@ == local_digest_file(),
        published_path matches Some(p) ==> paths@[1]@ == p@,
{
    let mut paths: Vec<String> = Vec::new();
    paths.push(String::from_str("digest.txt"));
    match published_path {
        Some(p) => {
            paths.push(p);
        },
        None => {},
    }
    paths
}

/// Where a new player appears, in whole metres: above the origin, so that it
/// falls onto the baseplate.
pub const SPAWN_X: i32 = 0;
pub const SPAWN_Y: i32 = 10;
pub const SPAWN_Z: i32 = 0;

/// The player entity that the server spawns for a newly connected client.
#[derive(Clone, Copy, Debug, PartialEq, Eq, Structural)]
pub struct PlayerSpawn {
    /// The connection that controls the player; the player is despawned
    /// when that connection goes away.
    pub owner: u64,
    /// Where the player appears, in whole metres.
    pub x: i32,
    pub y: i32,
    pub z: i32,
    /// The player is replicated to every client.
    pub replicate_to_all: bool,
    /// Every client predicts the player's motion.
    pub predict_for_all: bool,
}

/// What the server does when a connection is established.
#[derive(Clone, Copy, Debug, PartialEq, Eq, Structural)]
pub enum ConnectAction {
    /// The connection is not a client of this server: nothing happens.
    Ignore,
    /// The connection is a client of this server: it is made a replication
    /// sender, and the player described here is spawned for it.
    SpawnPlayer(PlayerSpawn),
}

/// The player spawned for the client on `connection`: owned by that
/// connection, at the spawn point, replicated to and predicted by all clients.
pub open spec fn player_spawn_for(connection: u64) -> PlayerSpawn {
    PlayerSpawn {
        owner: connection,
        x: SPAWN_X,
        y: SPAWN_Y,
        z: SPAWN_Z,
        replicate_to_all: true,
        predict_for_all: true,
    }
}

/// Spawns a player owned by the connection (`connection`, the connection
/// entity's bits) only when it is a client of this server.
pub fn on_connect(connection: u64, is_client_of_server: bool) -> (action: ConnectAction)
    ensures
        action == (if is_client_of_server {
            ConnectAction::SpawnPlayer(player_spawn_for(connection))
        } else {
            ConnectAction::Ignore
        }),
        action matches ConnectAction::SpawnPlayer(s) ==> s.owner == connection,
        action is SpawnPlayer <==> is_client_of_server,
{
    if !is_client_of_server {
        return ConnectAction::Ignore;
    }
    ConnectAction::SpawnPlayer(PlayerSpawn {
        owner: connection,
        x: SPAWN_X,
        y: SPAWN_Y,
        z: SPAWN_Z,
        replicate_to_all: true,
        predict_for_all: true,
    })
}

/// The player spawned for a connection is owned by exactly that connection,
/// appears ten metres above the origin, and is replicated to and predicted by
/// every client; no connection is ignored that is a client of the server.
pub proof fn lemma_spawn_owned_by_connection(connection: u64)
    ensures
        player_spawn_for(connection).owner == connection,
        player_spawn_for(connection).x == 0 && player_spawn_for(connection).y == 10 && player_spawn_for(connection).z == 0,
        player_spawn_for(connection).replicate_to_all && player_spawn_for(connection).predict_for_all,
        forall|other: u64| other != connection ==> #[trigger] player_spawn_for(other) != player_spawn_for(connection),
{
}

} // verus!
