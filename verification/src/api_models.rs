//! The values that cross the library's border: what clients send, what
//! they are sent, and what the control plane asks and is told.

use crate::models::{Client, LobbyStatus, Player, Projectile};
use vstd::prelude::*;

verus! {

/// What a client may ask for in one tick.
#[derive(Debug, Clone, Copy, PartialEq, Eq, Structural)]
pub enum ClientAction {
    SHOOT,
    TURN,
    UP,
    DOWN,
    LEFT,
    RIGHT,
}

/// One decoded frame of a client: the tick it answers, the action, and the
/// angle that only `TURN` reads.
#[derive(Debug, Clone, Copy, PartialEq, Eq, Structural)]
pub struct ClientMessage {
    pub tick: u128,
    pub action: ClientAction,
    pub degrees: Option<i32>,
}

/// The list of lobbies, as the control plane shows it.
#[derive(Debug)]
pub struct ServerOut {
    pub lobbies: Vec<LobbyOut>,
}

/// One lobby, as the control plane shows it.
#[derive(Debug)]
pub struct LobbyOut {
    pub id: u128,
    pub clients: Vec<Client>,
    pub status: LobbyStatus,
    pub spectators: i32,
}

#[derive(Debug, Clone, Copy, PartialEq, Eq, Structural)]
pub struct LobbyCreateResponse {
    pub id: u128,
}

/// The status that the control plane asks a lobby to take.
#[derive(Debug, Clone, Copy, PartialEq, Eq, Structural)]
pub struct UpdateLobbyBody {
    pub status: LobbyStatus,
}

/// A snapshot of a lobby's game, as every client is sent it.
#[derive(Debug)]
pub struct GameStateOut {
    pub tick: u128,
    pub tick_length_milli_seconds: u64,
    pub players: Vec<Player>,
    pub entities: Vec<Projectile>,
    pub spectators: i32,
}

/// The greeting that a newly joined player is sent.
#[derive(Debug)]
pub struct ClientHello {
    pub success: bool,
    pub message: String,
    pub player_id: u128,
}

/// A snapshot together with the peers that it goes to.
#[derive(Debug)]
pub struct Broadcast {
    pub recipients: Vec<u64>,
    pub game_state_out: GameStateOut,
}

} // verus!
