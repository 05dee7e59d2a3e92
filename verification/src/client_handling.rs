//! What becomes of a frame that a client sends: whether its input is taken
//! for the current tick, and whether the tick can then be advanced ahead of
//! its deadline.

use crate::tables::lemma_index_of_unique;
use crate::api_models::ClientMessage;
use crate::models::{
    client_peers, holds_input, holds_player, input_peers, ClientType, Lobby, LobbyStatus,
    PendingInput,
};
use vstd::prelude::*;

verus! {

/// What became of an input.
#[derive(Debug, Clone, Copy, PartialEq, Eq, Structural)]
pub enum InputOutcome {
    /// The input is stored for the current tick.
    Accepted,
    /// The peer has already handed in an input for this tick.
    DuplicateThisTick,
    /// The input answers another tick than the current one.
    StaleTick,
    /// The peer is no client of kind PLAYER.
    NotAPlayer,
    /// The lobby is not running.
    NotRunning,
}

/// One frame of a client, as the host read it.
#[derive(Debug, Clone, Copy, PartialEq, Eq, Structural)]
pub enum Frame {
    /// The client closed the connection.
    Close,
    /// The frame could not be decoded.
    Malformed,
    /// A decoded message.
    Message(ClientMessage),
}

/// What became of a frame.
#[derive(Debug, Clone, Copy, PartialEq, Eq, Structural)]
pub enum FrameOutcome {
    /// The frame held a message, with this outcome.
    Input(InputOutcome),
    /// The frame was a close and is left to the disconnect.
    Closed,
    /// The frame could not be decoded and is dropped.
    Malformed,
}

/// What becomes of an input of `peer` that answers `tick`, as the lobby
/// stands.
pub open spec fn input_outcome(lobby: Lobby, peer: u64, tick: u128) -> InputOutcome {
    if lobby.status != LobbyStatus::RUNNING {
        InputOutcome::NotRunning
    } else if !lobby.is_player(peer) {
        InputOutcome::NotAPlayer
    } else if lobby.has_input(peer) {
        InputOutcome::DuplicateThisTick
    } else if tick != lobby.tick {
        InputOutcome::StaleTick
    } else {
        InputOutcome::Accepted
    }
}

/// What becomes of a frame of `peer`, as the lobby stands.
pub open spec fn frame_outcome(lobby: Lobby, peer: u64, frame: Frame) -> FrameOutcome {
    if lobby.status != LobbyStatus::RUNNING {
        FrameOutcome::Input(InputOutcome::NotRunning)
    } else if frame is Close {
        FrameOutcome::Closed
    } else if !lobby.is_player(peer) {
        FrameOutcome::Input(InputOutcome::NotAPlayer)
    } else {
        match frame {
            Frame::Message(message) => FrameOutcome::Input(input_outcome(lobby, peer, message.tick)),
            _ => FrameOutcome::Malformed,
        }
    }
}

/// Whether every client of kind PLAYER has an input pending. Spectators do
/// not count, and a lobby without players has all its answers.
pub open spec fn all_clients_responded(lobby: Lobby) -> bool {
    forall|i: int|
        0 <= i < lobby.clients.len() && (#[trigger] lobby.clients[i]).client.client_type
            == ClientType::PLAYER ==> lobby.has_input(lobby.clients[i].peer)
}

/// `after` is `before` with the input of `peer` stored behind the inputs
/// that were already pending; nothing else of the lobby changes.
pub open spec fn input_stored(before: Lobby, after: Lobby, peer: u64, message: ClientMessage) -> bool {
    &&& after.client_messages@ == before.client_messages@.push(PendingInput { peer, message })
    &&& after.round == before.round
    &&& after.tick == before.tick
    &&& after.tick_length_milli_seconds == before.tick_length_milli_seconds
    &&& after.id == before.id
    &&& after.clients == before.clients
    &&& after.status == before.status
    &&& after.game_state == before.game_state
}

/// Finds the client of `peer`.
pub fn find_client(lobby: &Lobby, peer: u64) -> (found: Option<usize>)
    requires
        client_peers(lobby.clients@).no_duplicates(),
    ensures
        found is Some <==> lobby.has_client(peer),
        found matches Some(i) ==> i < lobby.clients.len() && lobby.clients[i as int].peer == peer
            && i == lobby.client_index(peer),
{
    let mut i: usize = 0;
    while i < lobby.clients.len()
        invariant
            i <= lobby.clients.len(),
            client_peers(lobby.clients@).no_duplicates(),
            forall|j: int| 0 <= j < i ==> lobby.clients[j].peer != peer,
        decreases lobby.clients.len() - i,
    {
        if lobby.clients[i].peer == peer {
            proof {
                lemma_index_of_unique(client_peers(lobby.clients@), i as int, peer);
            }
            return Some(i);
        }
        i += 1;
    }
    None
}

/// Finds the input that `peer` has pending.
pub fn find_input(lobby: &Lobby, peer: u64) -> (found: Option<usize>)
    ensures
        found is Some <==> lobby.has_input(peer),
        found matches Some(i) ==> i < lobby.client_messages.len() && lobby.client_messages[i as int].peer
            == peer,
{
    let mut i: usize = 0;
    while i < lobby.client_messages.len()
        invariant
            i <= lobby.client_messages.len(),
            forall|j: int| 0 <= j < i ==> lobby.client_messages[j].peer != peer,
        decreases lobby.client_messages.len() - i,
    {
        if lobby.client_messages[i].peer == peer {
            proof {
                let peers = input_peers(lobby.client_messages@);
                assert(peers[i as int] == peer);
            }
            return Some(i);
        }
        i += 1;
    }
    None
}

/// Whether `peer` is a client of kind PLAYER.
pub fn is_player_client(lobby: &Lobby, peer: u64) -> (player: bool)
    requires
        client_peers(lobby.clients@).no_duplicates(),
    ensures
        player == lobby.is_player(peer),
{
    match find_client(lobby, peer) {
        Some(i) => match lobby.clients[i].client.client_type {
            ClientType::PLAYER => true,
            ClientType::SPECTATOR => false,
        },
        None => false,
    }
}

/// Takes the input of `peer` for the current tick, if the lobby is running,
/// the peer is a player that has not answered this tick yet, and the input
/// answers the current tick. Any other input is turned down and changes
/// nothing.
pub fn insert_input(lobby: &mut Lobby, peer: u64, message: ClientMessage) -> (outcome: InputOutcome)
    requires
        old(lobby).wf(),
    ensures
        final(lobby).wf(),
        outcome == input_outcome(*old(lobby), peer, message.tick),
        outcome != InputOutcome::Accepted ==> *final(lobby) == *old(lobby),
        outcome == InputOutcome::Accepted ==> input_stored(*old(lobby), *final(lobby), peer, message),
{
    match lobby.status {
        LobbyStatus::RUNNING => {},
        _ => {
            return InputOutcome::NotRunning;
        },
    }
    if !is_player_client(lobby, peer) {
        return InputOutcome::NotAPlayer;
    }
    if find_input(lobby, peer).is_some() {
        return InputOutcome::DuplicateThisTick;
    }
    if message.tick != lobby.tick {
        return InputOutcome::StaleTick;
    }
    let ghost before = lobby.client_messages@;
    lobby.client_messages.push(PendingInput { peer, message });
    proof {
        let after = lobby.client_messages@;
        assert(input_peers(after) =~= input_peers(before).push(peer));
        assert forall|other: u64| holds_input(after, other) implies holds_player(
            lobby.game_state.players@,
            other,
        ) by {
            if other != peer {
                assert(holds_input(before, other));
            }
        }
    }
    InputOutcome::Accepted
}

/// Decides what becomes of one frame of the client `addr`. A message is
/// handed to `insert_input`; a close, a frame that could not be decoded and
/// any frame to a lobby that is not running change nothing.
pub fn process_message_of_client(lobby: &mut Lobby, addr: u64, frame: Frame) -> (outcome:
    FrameOutcome)
    requires
        old(lobby).wf(),
    ensures
        final(lobby).wf(),
        outcome == frame_outcome(*old(lobby), addr, frame),
        outcome != FrameOutcome::Input(InputOutcome::Accepted) ==> *final(lobby) == *old(lobby),
        outcome == FrameOutcome::Input(InputOutcome::Accepted) ==> frame is Message && input_stored(
            *old(lobby),
            *final(lobby),
            addr,
            frame->0,
        ),
{
    match lobby.status {
        LobbyStatus::RUNNING => {},
        _ => {
            return FrameOutcome::Input(InputOutcome::NotRunning);
        },
    }
    match frame {
        Frame::Close => FrameOutcome::Closed,
        Frame::Malformed => {
            if !is_player_client(lobby, addr) {
                FrameOutcome::Input(InputOutcome::NotAPlayer)
            } else {
                FrameOutcome::Malformed
            }
        },
        Frame::Message(message) => FrameOutcome::Input(insert_input(lobby, addr, message)),
    }
}

/// Tells whether the tick can be advanced ahead of its deadline: `Some` of
/// the current tick where every player has answered, `None` where an answer
/// is missing. The host cancels the timer of the tick that it is handed
/// and starts the update for it.
pub fn check_all_clients_responded(lobby: &mut Lobby) -> (expected_tick: Option<u128>)
    requires
        old(lobby).wf(),
    ensures
        *final(lobby) == *old(lobby),
        expected_tick == if all_clients_responded(*old(lobby)) {
            Some(old(lobby).tick)
        } else {
            None
        },
{
    let mut i: usize = 0;
    while i < lobby.clients.len()
        invariant
            i <= lobby.clients.len(),
            *lobby == *old(lobby),
            forall|j: int|
                0 <= j < i && (#[trigger] lobby.clients[j]).client.client_type == ClientType::PLAYER
                    ==> lobby.has_input(lobby.clients[j].peer),
        decreases lobby.clients.len() - i,
    {
        let answered: bool = match lobby.clients[i].client.client_type {
            ClientType::PLAYER => find_input(lobby, lobby.clients[i].peer).is_some(),
            ClientType::SPECTATOR => true,
        };
        if !answered {
            return None;
        }
        i += 1;
    }
    Some(lobby.tick)
}

} // verus!
