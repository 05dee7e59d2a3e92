//! The snapshot of a lobby that its clients are sent, and who is sent it.

use crate::api_models::{Broadcast, GameStateOut};
use crate::models::{
    client_peers, count_spectators, Client, ClientEntry, ClientType, Lobby, Player, PlayerEntry,
    Projectile,
};
use vstd::prelude::*;

verus! {

/// The players of a sequence of entries, in order.
pub open spec fn players_of(entries: Seq<PlayerEntry>) -> Seq<Player> {
    Seq::new(entries.len(), |i: int| entries[i].player)
}

/// The peers of the spectators among `clients`, in order.
pub open spec fn spectator_peers(clients: Seq<ClientEntry>) -> Seq<u64>
    decreases clients.len(),
{
    if clients.len() == 0 {
        Seq::empty()
    } else if clients.last().client.client_type == ClientType::SPECTATOR {
        spectator_peers(clients.drop_last()).push(clients.last().peer)
    } else {
        spectator_peers(clients.drop_last())
    }
}

/// `out` shows `lobby` as it stands: its tick and tick length, its players
/// in seating order, its projectiles in their order, and the number of its
/// spectators.
pub open spec fn is_snapshot(lobby: Lobby, out: GameStateOut) -> bool {
    &&& out.tick == lobby.tick
    &&& out.tick_length_milli_seconds == lobby.tick_length_milli_seconds
    &&& out.players@ == players_of(lobby.game_state.players@)
    &&& out.entities@ == lobby.game_state.entities@
    &&& out.spectators == count_spectators(lobby.clients@)
}

/// There are no more spectators than clients.
pub proof fn lemma_count_spectators_bound(clients: Seq<ClientEntry>)
    ensures
        count_spectators(clients) <= clients.len(),
    decreases clients.len(),
{
    if clients.len() > 0 {
        lemma_count_spectators_bound(clients.drop_last());
    }
}

/// A copy of the player.
pub fn clone_player(player: &Player) -> (copy: Player)
    ensures
        copy == *player,
{
    Player {
        entity_type: player.entity_type,
        id: player.id,
        name: player.name.clone(),
        x: player.x,
        y: player.y,
        rotation: player.rotation,
        color: player.color.clone(),
        health: player.health,
        last_action_success: player.last_action_success,
        error_message: player.error_message.clone(),
    }
}

/// A copy of the client.
pub fn clone_client(client: &Client) -> (copy: Client)
    ensures
        copy == *client,
{
    Client { client_type: client.client_type, username: client.username.clone() }
}

/// The number of spectators among the clients.
pub fn count_spectator_clients(clients: &Vec<ClientEntry>) -> (count: usize)
    ensures
        count == count_spectators(clients@),
{
    let mut count: usize = 0;
    let mut i: usize = 0;
    while i < clients.len()
        invariant
            i <= clients.len(),
            count == count_spectators(clients@.take(i as int)),
            count <= i,
        decreases clients.len() - i,
    {
        proof {
            assert(clients@.take(i + 1).drop_last() =~= clients@.take(i as int));
        }
        match clients[i].client.client_type {
            ClientType::SPECTATOR => {
                count += 1;
            },
            ClientType::PLAYER => {},
        }
        i += 1;
    }
    proof {
        assert(clients@.take(clients.len() as int) =~= clients@);
    }
    count
}

/// The players of a game, in seating order, without their peers.
pub fn transform_map_of_players_to_list_of_player(map_of_player: &Vec<PlayerEntry>) -> (list: Vec<
    Player,
>)
    ensures
        list@ == players_of(map_of_player@),
{
    let mut list: Vec<Player> = Vec::new();
    let mut i: usize = 0;
    while i < map_of_player.len()
        invariant
            i <= map_of_player.len(),
            list.len() == i,
            forall|k: int| 0 <= k < i ==> list[k] == map_of_player[k].player,
        decreases map_of_player.len() - i,
    {
        list.push(clone_player(&map_of_player[i].player));
        i += 1;
    }
    list
}

/// A copy of the projectiles, in their order.
pub fn clone_entities(entities: &Vec<Projectile>) -> (copy: Vec<Projectile>)
    ensures
        copy@ == entities@,
{
    let mut copy: Vec<Projectile> = Vec::new();
    let mut i: usize = 0;
    while i < entities.len()
        invariant
            i <= entities.len(),
            copy.len() == i,
            forall|k: int| 0 <= k < i ==> copy[k] == entities[k],
        decreases entities.len() - i,
    {
        copy.push(entities[i]);
        i += 1;
    }
    copy
}

/// The snapshot of the lobby as it stands.
pub fn get_game_state_out(lobby: &mut Lobby) -> (out: GameStateOut)
    requires
        old(lobby).clients.len() <= i32::MAX,
    ensures
        *final(lobby) == *old(lobby),
        is_snapshot(*old(lobby), out),
{
    proof {
        lemma_count_spectators_bound(lobby.clients@);
    }
    let spectator_count: usize = count_spectator_clients(&lobby.clients);
    GameStateOut {
        tick: lobby.tick,
        tick_length_milli_seconds: lobby.tick_length_milli_seconds,
        spectators: spectator_count as i32,
        entities: clone_entities(&lobby.game_state.entities),
        players: transform_map_of_players_to_list_of_player(&lobby.game_state.players),
    }
}

/// The snapshot of the lobby, addressed to every client.
pub fn push_game_state_to_everyone(lobby: &mut Lobby) -> (broadcast: Broadcast)
    requires
        old(lobby).clients.len() <= i32::MAX,
    ensures
        *final(lobby) == *old(lobby),
        is_snapshot(*old(lobby), broadcast.game_state_out),
        broadcast.recipients@ == client_peers(old(lobby).clients@),
{
    let mut socket_addresses: Vec<u64> = Vec::new();
    let mut i: usize = 0;
    while i < lobby.clients.len()
        invariant
            i <= lobby.clients.len(),
            *lobby == *old(lobby),
            socket_addresses.len() == i,
            forall|k: int| 0 <= k < i ==> socket_addresses[k] == lobby.clients[k].peer,
        decreases lobby.clients.len() - i,
    {
        socket_addresses.push(lobby.clients[i].peer);
        i += 1;
    }
    push_game_state_to_addresses(lobby, socket_addresses)
}

/// The snapshot of the lobby, addressed to its spectators.
pub fn push_game_state_to_spectators(lobby: &mut Lobby) -> (broadcast: Broadcast)
    requires
        old(lobby).clients.len() <= i32::MAX,
    ensures
        *final(lobby) == *old(lobby),
        is_snapshot(*old(lobby), broadcast.game_state_out),
        broadcast.recipients@ == spectator_peers(old(lobby).clients@),
{
    let mut socket_addresses: Vec<u64> = Vec::new();
    let mut i: usize = 0;
    while i < lobby.clients.len()
        invariant
            i <= lobby.clients.len(),
            *lobby == *old(lobby),
            socket_addresses@ == spectator_peers(lobby.clients@.take(i as int)),
        decreases lobby.clients.len() - i,
    {
        proof {
            assert(lobby.clients@.take(i + 1).drop_last() =~= lobby.clients@.take(i as int));
        }
        match lobby.clients[i].client.client_type {
            ClientType::SPECTATOR => {
                socket_addresses.push(lobby.clients[i].peer);
            },
            ClientType::PLAYER => {},
        }
        i += 1;
    }
    proof {
        assert(lobby.clients@.take(lobby.clients.len() as int) =~= lobby.clients@);
    }
    push_game_state_to_addresses(lobby, socket_addresses)
}

/// The snapshot of the lobby, addressed to the given peers.
pub fn push_game_state_to_addresses(lobby: &mut Lobby, socket_addresses: Vec<u64>) -> (broadcast:
    Broadcast)
    requires
        old(lobby).clients.len() <= i32::MAX,
    ensures
        *final(lobby) == *old(lobby),
        is_snapshot(*old(lobby), broadcast.game_state_out),
        broadcast.recipients == socket_addresses,
{
    let game_state_out = get_game_state_out(lobby);
    Broadcast { recipients: socket_addresses, game_state_out }
}

} // verus!
