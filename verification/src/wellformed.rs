//! Tests of the invariants at run time, for a host that holds lobbies it
//! did not get from this library, or wants to make sure before a call.

use crate::actions::find_player;
use crate::client_handling::{find_client, is_player_client};
use crate::connections::peer_is_new;
use crate::models::{
    client_peers, holds_input, holds_player, holds_player_client, input_peers, lobby_ids,
    player_peers, ClientType, GameState, Lobby, LobbyStatus, Player, Server, FULL_HEALTH,
    MAX_FIELD_SIZE_X, MAX_FIELD_SIZE_Y, MAX_PLAYERS_PER_LOBBY, MAX_ROUNDS,
};
use crate::tables::lemma_index_of_unique;
use vstd::prelude::*;

verus! {

/// Whether no value stands twice in `keys`.
pub fn all_distinct(keys: &Vec<u64>) -> (distinct: bool)
    ensures
        distinct == keys@.no_duplicates(),
{
    let mut i: usize = 0;
    while i < keys.len()
        invariant
            i <= keys.len(),
            forall|a: int, b: int| 0 <= a < i && 0 <= b < a ==> keys[a] != keys[b],
        decreases keys.len() - i,
    {
        let mut j: usize = 0;
        while j < i
            invariant
                j <= i < keys.len(),
                forall|b: int| 0 <= b < j ==> keys[i as int] != keys[b],
            decreases i - j,
        {
            if keys[i] == keys[j] {
                return false;
            }
            j += 1;
        }
        i += 1;
    }
    assert forall|a: int, b: int| 0 <= a < keys.len() && 0 <= b < keys.len() && a != b implies keys[a]
        != keys[b] by {
    }
    true
}

/// Whether no id stands twice in `ids`.
pub fn all_distinct_ids(ids: &Vec<u128>) -> (distinct: bool)
    ensures
        distinct == ids@.no_duplicates(),
{
    let mut i: usize = 0;
    while i < ids.len()
        invariant
            i <= ids.len(),
            forall|a: int, b: int| 0 <= a < i && 0 <= b < a ==> ids[a] != ids[b],
        decreases ids.len() - i,
    {
        let mut j: usize = 0;
        while j < i
            invariant
                j <= i < ids.len(),
                forall|b: int| 0 <= b < j ==> ids[i as int] != ids[b],
            decreases i - j,
        {
            if ids[i] == ids[j] {
                return false;
            }
            j += 1;
        }
        i += 1;
    }
    assert forall|a: int, b: int| 0 <= a < ids.len() && 0 <= b < ids.len() && a != b implies ids[a]
        != ids[b] by {
    }
    true
}

/// Whether the player is well formed.
pub fn player_is_well_formed(player: &Player) -> (well_formed: bool)
    ensures
        well_formed == player.wf(),
{
    0 <= player.x && player.x < MAX_FIELD_SIZE_X && 0 <= player.y && player.y < MAX_FIELD_SIZE_Y
        && 0 <= player.rotation && player.rotation <= 360 && 0 <= player.health && player.health
        <= FULL_HEALTH
}

/// Whether the game is well formed.
pub fn game_is_well_formed(game_state: &GameState) -> (well_formed: bool)
    ensures
        well_formed == game_state.wf(),
{
    if game_state.players.len() > MAX_PLAYERS_PER_LOBBY {
        return false;
    }
    let mut peers: Vec<u64> = Vec::new();
    let mut i: usize = 0;
    while i < game_state.players.len()
        invariant
            i <= game_state.players.len(),
            peers.len() == i,
            forall|k: int| 0 <= k < i ==> peers[k] == game_state.players[k].peer,
            forall|k: int| 0 <= k < i ==> (#[trigger] game_state.players[k]).player.wf(),
        decreases game_state.players.len() - i,
    {
        if !player_is_well_formed(&game_state.players[i].player) {
            return false;
        }
        peers.push(game_state.players[i].peer);
        i += 1;
    }
    assert(peers@ =~= player_peers(game_state.players@));
    all_distinct(&peers)
}

/// Whether the lobby is well formed.
pub fn lobby_is_well_formed(lobby: &Lobby) -> (well_formed: bool)
    ensures
        well_formed == lobby.wf(),
{
    if !game_is_well_formed(&lobby.game_state) {
        return false;
    }
    if lobby.clients.len() > i32::MAX as usize {
        return false;
    }
    if lobby.round < 0 || lobby.round > MAX_ROUNDS {
        return false;
    }
    let running: bool = match lobby.status {
        LobbyStatus::RUNNING => true,
        _ => false,
    };
    if running && lobby.round >= MAX_ROUNDS {
        return false;
    }
    let mut peers: Vec<u64> = Vec::new();
    let mut i: usize = 0;
    while i < lobby.clients.len()
        invariant
            i <= lobby.clients.len(),
            peers.len() == i,
            forall|k: int| 0 <= k < i ==> peers[k] == lobby.clients[k].peer,
        decreases lobby.clients.len() - i,
    {
        peers.push(lobby.clients[i].peer);
        i += 1;
    }
    assert(peers@ =~= client_peers(lobby.clients@));
    if !all_distinct(&peers) {
        return false;
    }
    let mut senders: Vec<u64> = Vec::new();
    let mut i: usize = 0;
    while i < lobby.client_messages.len()
        invariant
            i <= lobby.client_messages.len(),
            lobby.game_state.wf(),
            senders.len() == i,
            forall|k: int| 0 <= k < i ==> senders[k] == lobby.client_messages[k].peer,
            forall|k: int|
                0 <= k < i ==> holds_player(
                    lobby.game_state.players@,
                    (#[trigger] lobby.client_messages[k]).peer,
                ),
        decreases lobby.client_messages.len() - i,
    {
        let sender: u64 = lobby.client_messages[i].peer;
        if find_player(&lobby.game_state, sender).is_none() {
            proof {
                assert(input_peers(lobby.client_messages@)[i as int] == sender);
                assert(holds_input(lobby.client_messages@, sender));
            }
            return false;
        }
        senders.push(sender);
        i += 1;
    }
    assert(senders@ =~= input_peers(lobby.client_messages@));
    if !all_distinct(&senders) {
        return false;
    }
    let mut j: usize = 0;
    while j < lobby.game_state.players.len()
        invariant
            j <= lobby.game_state.players.len(),
            client_peers(lobby.clients@).no_duplicates(),
            forall|k: int|
                0 <= k < j ==> holds_player_client(
                    lobby.clients@,
                    (#[trigger] lobby.game_state.players[k]).peer,
                ),
        decreases lobby.game_state.players.len() - j,
    {
        let peer: u64 = lobby.game_state.players[j].peer;
        if !is_player_client(lobby, peer) {
            proof {
                assert(player_peers(lobby.game_state.players@)[j as int] == peer);
            }
            return false;
        }
        j += 1;
    }
    let mut i: usize = 0;
    while i < lobby.clients.len()
        invariant
            i <= lobby.clients.len(),
            lobby.game_state.wf(),
            client_peers(lobby.clients@).no_duplicates(),
            forall|k: int|
                0 <= k < i && (#[trigger] lobby.clients[k]).client.client_type
                    == ClientType::PLAYER ==> holds_player(
                    lobby.game_state.players@,
                    lobby.clients[k].peer,
                ),
        decreases lobby.clients.len() - i,
    {
        let seated: bool = match lobby.clients[i].client.client_type {
            ClientType::PLAYER => find_player(&lobby.game_state, lobby.clients[i].peer).is_some(),
            ClientType::SPECTATOR => true,
        };
        if !seated {
            proof {
                let peer = lobby.clients[i as int].peer;
                lemma_index_of_unique(client_peers(lobby.clients@), i as int, peer);
                assert(holds_player_client(lobby.clients@, peer));
            }
            return false;
        }
        i += 1;
    }
    proof {
        assert forall|peer: u64|
            holds_player(lobby.game_state.players@, peer) <==> holds_player_client(
                lobby.clients@,
                peer,
            ) by {
        }
        assert forall|peer: u64| holds_input(lobby.client_messages@, peer) implies holds_player(
            lobby.game_state.players@,
            peer,
        ) by {
        }
    }
    true
}

/// Whether the directory is well formed.
pub fn server_is_well_formed(server: &Server) -> (well_formed: bool)
    ensures
        well_formed == server.wf(),
{
    let mut ids: Vec<u128> = Vec::new();
    let mut i: usize = 0;
    while i < server.lobbies.len()
        invariant
            i <= server.lobbies.len(),
            ids.len() == i,
            forall|k: int| 0 <= k < i ==> ids[k] == server.lobbies[k].id,
            forall|k: int| 0 <= k < i ==> (#[trigger] server.lobbies[k]).wf(),
        decreases server.lobbies.len() - i,
    {
        if !lobby_is_well_formed(&server.lobbies[i]) {
            return false;
        }
        ids.push(server.lobbies[i].id);
        i += 1;
    }
    assert(ids@ =~= lobby_ids(server.lobbies@));
    all_distinct_ids(&ids)
}

/// Whether no lobby of the directory knows the peer `addr` and every lobby
/// has room on its client table.
pub fn is_new_peer(server: &Server, addr: u64) -> (new: bool)
    requires
        server.wf(),
    ensures
        new == peer_is_new(*server, addr),
{
    let mut i: usize = 0;
    while i < server.lobbies.len()
        invariant
            i <= server.lobbies.len(),
            server.wf(),
            forall|k: int|
                0 <= k < i ==> !(#[trigger] server.lobbies[k]).has_client(addr)
                    && server.lobbies[k].clients.len() < i32::MAX,
        decreases server.lobbies.len() - i,
    {
        if find_client(&server.lobbies[i], addr).is_some() {
            return false;
        }
        if server.lobbies[i].clients.len() >= i32::MAX as usize {
            return false;
        }
        i += 1;
    }
    true
}

} // verus!
