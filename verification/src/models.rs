//! The data of a lobby: clients, players, projectiles and the lobby itself,
//! with the invariants that every operation of the library keeps.
//!
//! Identifiers are plain integers. A uuid is held as its 128-bit value and a
//! peer (one live connection) as a 64-bit number chosen by the host.
//! Projectile coordinates are reals on a fixed-point grid: one field cell is
//! `COORD_SCALE` units wide.
//!
//! The maps of a lobby are kept as vectors of entries with distinct peers, in
//! the order in which the entries were added. That order is the seating order
//! of the players.

use crate::api_models::ClientMessage;
use vstd::prelude::*;

verus! {

/// Width of the field in cells.
pub const MAX_FIELD_SIZE_X: i32 = 30;

/// Height of the field in cells.
pub const MAX_FIELD_SIZE_Y: i32 = 30;

/// The round at which a running lobby is finished at the latest.
pub const MAX_ROUNDS: i32 = 500;

/// The number of players that a lobby can seat.
pub const MAX_PLAYERS_PER_LOBBY: usize = 7;

/// Length of one tick in milliseconds.
pub const TICK_LENGTH_MILLI_SECONDS: u64 = 2000;

/// Fixed-point units per field cell.
pub const COORD_SCALE: i64 = 1_000_000;

/// Distance that a projectile travels in one tick, in fixed-point units.
pub const PROJECTILE_UNIT_LENGTH_TRAVEL_DISTANCE: i64 = 6_000_000;

/// Health of a player at the start of a game.
pub const FULL_HEALTH: i16 = 100;

/// Health that one hit takes away.
pub const HIT_DAMAGE: i16 = 20;

#[derive(Debug, Clone, Copy, PartialEq, Eq, Structural)]
pub enum ClientType {
    PLAYER,
    SPECTATOR,
}

#[derive(Debug, Clone, Copy, PartialEq, Eq, Structural)]
pub enum LobbyStatus {
    PENDING,
    RUNNING,
    FINISHED,
}

#[derive(Debug, Clone, Copy, PartialEq, Eq, Structural)]
pub enum EntityType {
    PLAYER,
}

/// A projectile in flight. Coordinates are in fixed-point units.
#[derive(Debug, Clone, Copy, PartialEq, Eq, Structural)]
pub struct Projectile {
    pub id: u128,
    pub previous_x: i64,
    pub previous_y: i64,
    pub x: i64,
    pub y: i64,
    pub travel_distance: i64,
    pub direction: i32,
    pub source: u64,
}

#[derive(Debug)]
pub struct Player {
    pub entity_type: EntityType,
    pub id: u128,
    pub name: String,
    pub x: i32,
    pub y: i32,
    pub rotation: i32,
    pub color: String,
    pub health: i16,
    pub last_action_success: bool,
    pub error_message: String,
}

/// A player together with the peer that steers it.
#[derive(Debug)]
pub struct PlayerEntry {
    pub peer: u64,
    pub player: Player,
}

#[derive(Debug)]
pub struct GameState {
    pub players: Vec<PlayerEntry>,
    pub entities: Vec<Projectile>,
}

#[derive(Debug)]
pub struct Client {
    pub client_type: ClientType,
    pub username: String,
}

/// A client together with its peer.
#[derive(Debug)]
pub struct ClientEntry {
    pub peer: u64,
    pub client: Client,
}

/// The input that a peer has handed in for the current tick.
#[derive(Debug, Clone, Copy, PartialEq, Eq, Structural)]
pub struct PendingInput {
    pub peer: u64,
    pub message: ClientMessage,
}

#[derive(Debug)]
pub struct Lobby {
    pub round: i32,
    pub tick: u128,
    pub tick_length_milli_seconds: u64,
    pub id: u128,
    pub clients: Vec<ClientEntry>,
    pub client_messages: Vec<PendingInput>,
    pub status: LobbyStatus,
    pub game_state: GameState,
}

/// The directory of lobbies, in the order of their creation.
#[derive(Debug)]
pub struct Server {
    pub lobbies: Vec<Lobby>,
}

/// What the host worked out for one projectile and one tick: the grid cells
/// on the line from its position to where it comes to rest, and that end
/// position in fixed-point units.
#[derive(Debug)]
pub struct Flight {
    pub cells: Vec<(i32, i32)>,
    pub end_x: i64,
    pub end_y: i64,
}

impl Player {
    /// The player stands on the field, looks in a direction of the compass
    /// and has a health between nothing and full.
    pub open spec fn wf(&self) -> bool {
        &&& 0 <= self.x < MAX_FIELD_SIZE_X
        &&& 0 <= self.y < MAX_FIELD_SIZE_Y
        &&& 0 <= self.rotation <= 360
        &&& 0 <= self.health <= FULL_HEALTH
    }

    pub open spec fn alive(&self) -> bool {
        self.health > 0
    }
}

impl Projectile {
    /// Whether the projectile is kept at the start of a tick. A projectile
    /// exactly on the far border is kept.
    pub open spec fn in_field(&self) -> bool {
        &&& 0 <= self.x <= MAX_FIELD_SIZE_X * COORD_SCALE
        &&& 0 <= self.y <= MAX_FIELD_SIZE_Y * COORD_SCALE
    }
}

/// The peers of a sequence of player entries, in order.
pub open spec fn player_peers(players: Seq<PlayerEntry>) -> Seq<u64> {
    Seq::new(players.len(), |i: int| players[i].peer)
}

/// The peers of a sequence of client entries, in order.
pub open spec fn client_peers(clients: Seq<ClientEntry>) -> Seq<u64> {
    Seq::new(clients.len(), |i: int| clients[i].peer)
}

/// The peers of a sequence of pending inputs, in order.
pub open spec fn input_peers(inputs: Seq<PendingInput>) -> Seq<u64> {
    Seq::new(inputs.len(), |i: int| inputs[i].peer)
}

/// Whether one of `players` is steered by `peer`.
pub open spec fn holds_player(players: Seq<PlayerEntry>, peer: u64) -> bool {
    player_peers(players).contains(peer)
}

/// Whether one of `clients` has the peer `peer`.
pub open spec fn holds_client(clients: Seq<ClientEntry>, peer: u64) -> bool {
    client_peers(clients).contains(peer)
}

/// Whether one of `clients` has the peer `peer` and is of kind PLAYER.
pub open spec fn holds_player_client(clients: Seq<ClientEntry>, peer: u64) -> bool {
    holds_client(clients, peer) && clients[client_peers(clients).index_of(peer)].client.client_type
        == ClientType::PLAYER
}

/// Whether one of `inputs` was handed in by `peer`.
pub open spec fn holds_input(inputs: Seq<PendingInput>, peer: u64) -> bool {
    input_peers(inputs).contains(peer)
}

impl GameState {
    pub open spec fn has_player(&self, peer: u64) -> bool {
        holds_player(self.players@, peer)
    }

    /// Index of the player of `peer`; meaningful where `has_player(peer)`.
    pub open spec fn player_index(&self, peer: u64) -> int {
        player_peers(self.players@).index_of(peer)
    }

    /// No peer steers two players, no more players than can be seated, and
    /// every player is well formed.
    pub open spec fn wf(&self) -> bool {
        &&& self.players.len() <= MAX_PLAYERS_PER_LOBBY
        &&& player_peers(self.players@).no_duplicates()
        &&& forall|i: int| 0 <= i < self.players.len() ==> (#[trigger] self.players[i]).player.wf()
    }
}

/// How many of `players` have health left.
pub open spec fn count_alive(players: Seq<PlayerEntry>) -> nat
    decreases players.len(),
{
    if players.len() == 0 {
        0
    } else {
        count_alive(players.drop_last()) + if players.last().player.alive() {
            1nat
        } else {
            0nat
        }
    }
}

/// How many of `clients` are spectators.
pub open spec fn count_spectators(clients: Seq<ClientEntry>) -> nat
    decreases clients.len(),
{
    if clients.len() == 0 {
        0
    } else {
        count_spectators(clients.drop_last()) + if clients.last().client.client_type
            == ClientType::SPECTATOR {
            1nat
        } else {
            0nat
        }
    }
}

impl Lobby {
    pub open spec fn has_client(&self, peer: u64) -> bool {
        holds_client(self.clients@, peer)
    }

    /// Index of the client of `peer`; meaningful where `has_client(peer)`.
    pub open spec fn client_index(&self, peer: u64) -> int {
        client_peers(self.clients@).index_of(peer)
    }

    /// Whether `peer` is a client of kind PLAYER.
    pub open spec fn is_player(&self, peer: u64) -> bool {
        holds_player_client(self.clients@, peer)
    }

    pub open spec fn has_input(&self, peer: u64) -> bool {
        holds_input(self.client_messages@, peer)
    }

    pub open spec fn spectator_count(&self) -> nat {
        count_spectators(self.clients@)
    }

    /// The invariant of a lobby.
    ///
    /// Peers are distinct in each of the three tables, the players are
    /// exactly the clients of kind PLAYER, only players have an input
    /// pending, the round stays within its cap and a running lobby has not
    /// reached it, and the client table fits the spectator counter.
    pub open spec fn wf(&self) -> bool {
        &&& self.game_state.wf()
        &&& client_peers(self.clients@).no_duplicates()
        &&& input_peers(self.client_messages@).no_duplicates()
        &&& self.clients.len() <= i32::MAX
        &&& forall|peer: u64|
            holds_player(self.game_state.players@, peer) <==> holds_player_client(
                self.clients@,
                peer,
            )
        &&& forall|peer: u64|
            holds_input(self.client_messages@, peer) ==> holds_player(
                self.game_state.players@,
                peer,
            )
        &&& 0 <= self.round <= MAX_ROUNDS
        &&& self.status == LobbyStatus::RUNNING ==> self.round < MAX_ROUNDS
    }
}

/// The ids of a sequence of lobbies, in order.
pub open spec fn lobby_ids(lobbies: Seq<Lobby>) -> Seq<u128> {
    Seq::new(lobbies.len(), |i: int| lobbies[i].id)
}

impl Server {
    pub open spec fn has_lobby(&self, id: u128) -> bool {
        lobby_ids(self.lobbies@).contains(id)
    }

    /// Index of the lobby `id`; meaningful where `has_lobby(id)`.
    pub open spec fn lobby_index(&self, id: u128) -> int {
        lobby_ids(self.lobbies@).index_of(id)
    }

    /// Every lobby is well formed and no two share an id.
    pub open spec fn wf(&self) -> bool {
        &&& lobby_ids(self.lobbies@).no_duplicates()
        &&& forall|i: int| 0 <= i < self.lobbies.len() ==> (#[trigger] self.lobbies[i]).wf()
    }
}

} // verus!
