//! The life of a lobby: clients joining and leaving, the start of a game,
//! and the two halves of a tick.
//!
//! The host drives the lobby. It hands in what happened (a client joined, a
//! timer fired, every player answered) and is handed back what to send and
//! whether to arm the next deadline. A tick has two halves because the
//! flight of the projectiles is worked out by the host in between: the
//! first half applies the players' inputs, the second moves the
//! projectiles and closes the round.

use crate::actions::{
    action_shoots, apply_client_message, find_player, fired_projectile, player_acted,
};
use crate::api_models::{Broadcast, ClientAction, ClientHello};
use crate::client_handling::find_client;
use crate::formations::{
    color_for_player, formation, get_amount_of_players_alive, player_color, player_seated,
    players_seated, reset_player_health, update_initial_player_positions,
};
use crate::ids::fresh_uuid;
use crate::models::{
    client_peers, count_alive, holds_input, holds_player, holds_player_client, input_peers,
    player_peers, Client, ClientEntry, ClientType, EntityType, Flight, GameState, Lobby,
    LobbyStatus, PendingInput, Player, PlayerEntry, Projectile, FULL_HEALTH, MAX_PLAYERS_PER_LOBBY,
    MAX_ROUNDS,
};
use crate::projectiles::{calculate_projectile_updates, flown, players_hit};
use crate::snapshot::{
    is_snapshot, push_game_state_to_everyone, push_game_state_to_spectators, spectator_peers,
};
use crate::tables::{
    lemma_client_pushed, lemma_client_removed, lemma_player_pushed, lemma_player_removed,
    lemma_same_peers,
};
use vstd::prelude::*;
use vstd::string::StringExecFns;

verus! {

/// What the host does after a client has joined.
#[derive(Debug)]
pub struct ConnectOutcome {
    /// The greeting for the client, if it joined as a player.
    pub client_hello: Option<ClientHello>,
    /// The snapshot to send, if the join changed what clients see.
    pub broadcast: Option<Broadcast>,
}

/// What the host does after a client has left.
#[derive(Debug)]
pub struct DisconnectOutcome {
    /// Whether the client that left was a player.
    pub was_player: bool,
    /// The snapshot to send, if the leave changed what clients see.
    pub broadcast: Option<Broadcast>,
    /// The tick to arm a deadline for, if the game goes on under a new one.
    pub next_deadline: Option<u128>,
}

pub open spec fn connection_successful_message() -> Seq<char> {
    "Connection successful."@
}

/// The message for a player that a full lobby turns down.
pub open spec fn lobby_full_message() -> Seq<char> {
    "Could not get color for new player. Lobby already has 7 players."@
}

/// `player` is the player that `client` joins as: the `number`-th of the
/// lobby, on `place`, at full health and with no mark against it.
pub open spec fn player_joined(
    player: Player,
    client: Client,
    player_id: u128,
    number: int,
    place: (i32, i32, i32),
) -> bool {
    &&& player.entity_type == EntityType::PLAYER
    &&& player.id == player_id
    &&& player.name == client.username
    &&& player.x == place.0
    &&& player.y == place.1
    &&& player.rotation == place.2
    &&& player.color@ == player_color(number)
    &&& player.health == FULL_HEALTH
    &&& player.last_action_success
    &&& player.error_message@ == Seq::<char>::empty()
}

/// `after` is `before` with the player `addr` added behind the others and
/// all of them seated anew, under the tick `fresh_tick`.
pub open spec fn player_connected(
    before: Lobby,
    after: Lobby,
    addr: u64,
    new_client: Client,
    player_id: u128,
    fresh_tick: u128,
) -> bool {
    let n = before.game_state.players.len() as int;
    &&& after.clients@ == before.clients@.push(ClientEntry { peer: addr, client: new_client })
    &&& after.game_state.players.len() == n + 1
    &&& forall|i: int|
        0 <= i < n ==> {
            &&& (#[trigger] after.game_state.players[i]).peer == before.game_state.players[i].peer
            &&& player_seated(
                before.game_state.players[i].player,
                after.game_state.players[i].player,
                formation(n + 1)[i],
            )
        }
    &&& after.game_state.players[n].peer == addr
    &&& player_joined(
        after.game_state.players[n].player,
        new_client,
        player_id,
        n + 1,
        formation(n + 1)[n],
    )
    &&& after.game_state.entities == before.game_state.entities
    &&& after.tick == fresh_tick
    &&& after.round == before.round
    &&& after.tick_length_milli_seconds == before.tick_length_milli_seconds
    &&& after.id == before.id
    &&& after.client_messages == before.client_messages
    &&& after.status == before.status
}

/// `after` is `before` with the spectator `addr` added behind the other
/// clients; nothing else of the lobby changes.
pub open spec fn spectator_connected(before: Lobby, after: Lobby, addr: u64, new_client: Client) -> bool {
    &&& after.clients@ == before.clients@.push(ClientEntry { peer: addr, client: new_client })
    &&& after.game_state == before.game_state
    &&& after.tick == before.tick
    &&& after.round == before.round
    &&& after.tick_length_milli_seconds == before.tick_length_milli_seconds
    &&& after.id == before.id
    &&& after.client_messages == before.client_messages
    &&& after.status == before.status
}

/// Whether the lobby takes `new_client` in: a spectator always, a player
/// while a seat is free.
pub open spec fn connect_succeeds(lobby: Lobby, new_client: Client) -> bool {
    new_client.client_type == ClientType::SPECTATOR || lobby.game_state.players.len()
        < MAX_PLAYERS_PER_LOBBY
}

/// What `connect_client` hands back and leaves behind.
pub open spec fn connect_result(
    before: Lobby,
    after: Lobby,
    addr: u64,
    new_client: Client,
    player_id: u128,
    fresh_tick: u128,
    result: Result<ConnectOutcome, String>,
) -> bool {
    match result {
        Err(message) => {
            &&& !connect_succeeds(before, new_client)
            &&& message@ == lobby_full_message()
            &&& after == before
        },
        Ok(outcome) => {
            &&& connect_succeeds(before, new_client)
            &&& if new_client.client_type == ClientType::PLAYER {
                &&& player_connected(before, after, addr, new_client, player_id, fresh_tick)
                &&& outcome.client_hello matches Some(hello)
                &&& hello.success
                &&& hello.message@ == connection_successful_message()
                &&& hello.player_id == player_id
                &&& outcome.broadcast matches Some(broadcast)
                &&& is_snapshot(after, broadcast.game_state_out)
                &&& broadcast.recipients@ == spectator_peers(after.clients@)
            } else {
                &&& spectator_connected(before, after, addr, new_client)
                &&& outcome.client_hello is None
                &&& outcome.broadcast is None
            }
        },
    }
}

/// Takes the client `addr` into the lobby, with `player_id` as the id of
/// its player and `fresh_tick` as the lobby's next tick if it joins as one.
///
/// A spectator is recorded and nothing else changes. A player is recorded,
/// gets the color of its number, all players are seated anew in the order
/// in which they joined, the tick changes, and the spectators are sent the
/// new state. A player that finds no seat free is turned down and the lobby
/// stays as it was.
pub fn connect_client(
    lobby: &mut Lobby,
    addr: u64,
    new_client: Client,
    player_id: u128,
    fresh_tick: u128,
) -> (result: Result<ConnectOutcome, String>)
    requires
        old(lobby).wf(),
        !old(lobby).has_client(addr),
        old(lobby).clients.len() < i32::MAX,
        new_client.client_type == ClientType::PLAYER ==> old(lobby).status == LobbyStatus::PENDING,
    ensures
        final(lobby).wf(),
        connect_result(*old(lobby), *final(lobby), addr, new_client, player_id, fresh_tick, result),
{
    let ghost before = *lobby;
    proof {
        lemma_client_pushed(
            before.clients@,
            ClientEntry { peer: addr, client: new_client },
        );
    }
    match new_client.client_type {
        ClientType::SPECTATOR => {
            lobby.clients.push(ClientEntry { peer: addr, client: new_client });
            proof {
                assert forall|p: u64|
                    holds_player(lobby.game_state.players@, p) <==> holds_player_client(
                        lobby.clients@,
                        p,
                    ) by {
                    assert(holds_player(before.game_state.players@, p) <==> holds_player_client(
                        before.clients@,
                        p,
                    ));
                }
            }
            Ok(ConnectOutcome { client_hello: None, broadcast: None })
        },
        ClientType::PLAYER => {
            let player_count: usize = lobby.game_state.players.len();
            let color = match color_for_player(player_count + 1) {
                Some(color) => color,
                None => {
                    return Err(
                        String::from_str(
                            "Could not get color for new player. Lobby already has 7 players.",
                        ),
                    );
                },
            };
            let new_player = Player {
                entity_type: EntityType::PLAYER,
                id: player_id,
                name: new_client.username.clone(),
                x: 0,
                y: 0,
                rotation: 100,
                color,
                health: FULL_HEALTH,
                last_action_success: true,
                error_message: String::new(),
            };
            let ghost entry = PlayerEntry { peer: addr, player: new_player };
            proof {
                assert(!holds_player_client(before.clients@, addr));
                lemma_player_pushed(before.game_state.players@, entry);
            }
            lobby.clients.push(ClientEntry { peer: addr, client: new_client });
            lobby.game_state.players.push(PlayerEntry { peer: addr, player: new_player });
            let ghost unseated = lobby.game_state.players@;
            match update_initial_player_positions(lobby) {
                Ok(()) => {},
                Err(error_message) => {
                    return Err(error_message);
                },
            }
            lobby.tick = fresh_tick;
            proof {
                lemma_same_peers(unseated, lobby.game_state.players@);
                assert forall|p: u64|
                    holds_player(lobby.game_state.players@, p) <==> holds_player_client(
                        lobby.clients@,
                        p,
                    ) by {
                    assert(holds_player(before.game_state.players@, p) <==> holds_player_client(
                        before.clients@,
                        p,
                    ));
                }
                assert forall|p: u64|
                    holds_input(lobby.client_messages@, p) implies holds_player(
                        lobby.game_state.players@,
                        p,
                    ) by {
                }
            }
            let broadcast = push_game_state_to_spectators(lobby);
            Ok(
                ConnectOutcome {
                    client_hello: Some(
                        ClientHello {
                            success: true,
                            player_id,
                            message: String::from_str("Connection successful."),
                        },
                    ),
                    broadcast: Some(broadcast),
                },
            )
        },
    }
}

/// Takes the client `addr` into the lobby. The id of a new player and the
/// lobby's next tick are freshly drawn, so the contract holds for some
/// pair of them.
pub fn handle_client_connect(lobby: &mut Lobby, addr: u64, new_client: Client) -> (result: Result<
    ConnectOutcome,
    String,
>)
    requires
        old(lobby).wf(),
        !old(lobby).has_client(addr),
        old(lobby).clients.len() < i32::MAX,
        new_client.client_type == ClientType::PLAYER ==> old(lobby).status == LobbyStatus::PENDING,
    ensures
        final(lobby).wf(),
        exists|player_id: u128, fresh_tick: u128| #[trigger]
            connect_result(
                *old(lobby),
                *final(lobby),
                addr,
                new_client,
                player_id,
                fresh_tick,
                result,
            ),
{
    match new_client.client_type {
        ClientType::PLAYER => {
            let player_id: u128 = fresh_uuid();
            let fresh_tick: u128 = fresh_uuid();
            connect_client(lobby, addr, new_client, player_id, fresh_tick)
        },
        ClientType::SPECTATOR => connect_client(lobby, addr, new_client, 0, 0),
    }
}

/// `after` is `before` without the spectator at `i` of its clients;
/// nothing else of the lobby changes.
pub open spec fn spectator_disconnected(before: Lobby, after: Lobby, i: int) -> bool {
    &&& after.clients@ == before.clients@.remove(i)
    &&& after.game_state == before.game_state
    &&& after.tick == before.tick
    &&& after.round == before.round
    &&& after.tick_length_milli_seconds == before.tick_length_milli_seconds
    &&& after.id == before.id
    &&& after.client_messages == before.client_messages
    &&& after.status == before.status
}

/// `after` is `before` without the player client at `i` of its clients and
/// without its player, and with no input pending. In a pending lobby the
/// players that stay are seated anew; in any other they stay where they
/// are. A finished lobby keeps its tick; any other goes on under the tick
/// `fresh_tick`.
pub open spec fn player_disconnected(before: Lobby, after: Lobby, i: int, fresh_tick: u128) -> bool {
    let j = before.game_state.player_index(before.clients[i].peer);
    &&& after.clients@ == before.clients@.remove(i)
    &&& if before.status == LobbyStatus::PENDING {
        players_seated(before.game_state.players@.remove(j), after.game_state.players@)
    } else {
        after.game_state.players@ == before.game_state.players@.remove(j)
    }
    &&& after.game_state.entities == before.game_state.entities
    &&& after.tick == if before.status == LobbyStatus::FINISHED {
        before.tick
    } else {
        fresh_tick
    }
    &&& after.client_messages@ == Seq::<PendingInput>::empty()
    &&& after.round == before.round
    &&& after.tick_length_milli_seconds == before.tick_length_milli_seconds
    &&& after.id == before.id
    &&& after.status == before.status
}

/// What `disconnect_client` hands back and leaves behind.
pub open spec fn disconnect_result(
    before: Lobby,
    after: Lobby,
    addr: u64,
    fresh_tick: u128,
    outcome: DisconnectOutcome,
) -> bool {
    if !before.has_client(addr) {
        &&& after == before
        &&& !outcome.was_player
        &&& outcome.broadcast is None
        &&& outcome.next_deadline is None
    } else if !before.is_player(addr) {
        &&& spectator_disconnected(before, after, before.client_index(addr))
        &&& !outcome.was_player
        &&& outcome.broadcast is None
        &&& outcome.next_deadline is None
    } else {
        &&& player_disconnected(before, after, before.client_index(addr), fresh_tick)
        &&& outcome.was_player
        &&& if before.status == LobbyStatus::FINISHED {
            outcome.broadcast is None
        } else {
            &&& outcome.broadcast matches Some(broadcast)
            &&& is_snapshot(after, broadcast.game_state_out)
            &&& broadcast.recipients@ == client_peers(after.clients@)
        }
        &&& outcome.next_deadline == if before.status == LobbyStatus::RUNNING {
            Some(fresh_tick)
        } else {
            None
        }
    }
}

/// Takes the client `addr` out of the lobby, with `fresh_tick` as the
/// lobby's next tick if a player leaves.
///
/// A spectator is taken off the client table and nothing else changes.
/// With a player its player leaves too, the inputs of the tick are
/// dropped, the tick changes without the round being counted, and every
/// client that stays is sent the new state. A pending lobby seats the
/// players that stay anew; a running one goes on under the new tick, for
/// which the host arms a deadline; a finished one keeps its tick and
/// sends nothing. A peer that is no client changes nothing.
pub fn disconnect_client(lobby: &mut Lobby, addr: u64, fresh_tick: u128) -> (outcome:
    DisconnectOutcome)
    requires
        old(lobby).wf(),
    ensures
        final(lobby).wf(),
        disconnect_result(*old(lobby), *final(lobby), addr, fresh_tick, outcome),
{
    let ghost before = *lobby;
    let i: usize = match find_client(lobby, addr) {
        Some(i) => i,
        None => {
            return DisconnectOutcome { was_player: false, broadcast: None, next_deadline: None };
        },
    };
    proof {
        lemma_client_removed(before.clients@, i as int);
    }
    let removed = lobby.clients.remove(i);
    match removed.client.client_type {
        ClientType::SPECTATOR => {
            proof {
                assert forall|p: u64|
                    holds_player(lobby.game_state.players@, p) <==> holds_player_client(
                        lobby.clients@,
                        p,
                    ) by {
                    assert(holds_player(before.game_state.players@, p) <==> holds_player_client(
                        before.clients@,
                        p,
                    ));
                }
            }
            DisconnectOutcome { was_player: false, broadcast: None, next_deadline: None }
        },
        ClientType::PLAYER => {
            proof {
                assert(holds_player_client(before.clients@, addr));
            }
            let found = find_player(&lobby.game_state, addr);
            let j: usize = found.unwrap();
            proof {
                lemma_player_removed(before.game_state.players@, j as int);
            }
            lobby.game_state.players.remove(j);
            let ghost unseated = lobby.game_state.players@;
            match lobby.status {
                LobbyStatus::PENDING => {
                    let _ = update_initial_player_positions(lobby);
                    proof {
                        lemma_same_peers(unseated, lobby.game_state.players@);
                    }
                },
                _ => {},
            }
            let finished: bool = match lobby.status {
                LobbyStatus::FINISHED => true,
                _ => false,
            };
            if !finished {
                lobby.tick = fresh_tick;
            }
            lobby.client_messages = Vec::new();
            proof {
                assert forall|k: int| 0 <= k < lobby.game_state.players.len() implies (
                #[trigger] lobby.game_state.players[k]).player.wf() by {
                }
                assert forall|p: u64|
                    holds_player(lobby.game_state.players@, p) <==> holds_player_client(
                        lobby.clients@,
                        p,
                    ) by {
                    assert(holds_player(before.game_state.players@, p) <==> holds_player_client(
                        before.clients@,
                        p,
                    ));
                }
            }
            let broadcast: Option<Broadcast> = if finished {
                None
            } else {
                Some(push_game_state_to_everyone(lobby))
            };
            let next_deadline: Option<u128> = match lobby.status {
                LobbyStatus::RUNNING => Some(fresh_tick),
                _ => None,
            };
            DisconnectOutcome { was_player: true, broadcast, next_deadline }
        },
    }
}

/// Takes the client `addr` out of the lobby. The lobby's next tick is
/// freshly drawn, so the contract holds for some tick.
pub fn handle_client_disconnect(lobby: &mut Lobby, addr: u64) -> (outcome: DisconnectOutcome)
    requires
        old(lobby).wf(),
    ensures
        final(lobby).wf(),
        exists|fresh_tick: u128| #[trigger]
            disconnect_result(*old(lobby), *final(lobby), addr, fresh_tick, outcome),
{
    let fresh_tick: u128 = fresh_uuid();
    disconnect_client(lobby, addr, fresh_tick)
}

/// `after` is `before` on `place` and at full health; nothing else of it
/// changes.
pub open spec fn player_started(before: Player, after: Player, place: (i32, i32, i32)) -> bool {
    &&& after.x == place.0
    &&& after.y == place.1
    &&& after.rotation == place.2
    &&& after.health == FULL_HEALTH
    &&& after.entity_type == before.entity_type
    &&& after.id == before.id
    &&& after.name == before.name
    &&& after.color == before.color
    &&& after.last_action_success == before.last_action_success
    &&& after.error_message == before.error_message
}

/// `after` is `before` made ready for a game: no input pending, the round
/// at nothing, and every player on its place of the formation and at full
/// health.
pub open spec fn game_started(before: Lobby, after: Lobby) -> bool {
    let n = before.game_state.players.len() as int;
    &&& after.client_messages@ == Seq::<PendingInput>::empty()
    &&& after.round == 0
    &&& after.game_state.players.len() == n
    &&& forall|i: int|
        0 <= i < n ==> {
            &&& (#[trigger] after.game_state.players[i]).peer == before.game_state.players[i].peer
            &&& player_started(
                before.game_state.players[i].player,
                after.game_state.players[i].player,
                formation(n)[i],
            )
        }
    &&& after.game_state.entities == before.game_state.entities
    &&& after.tick == before.tick
    &&& after.tick_length_milli_seconds == before.tick_length_milli_seconds
    &&& after.id == before.id
    &&& after.clients == before.clients
    &&& after.status == before.status
}

/// Makes the lobby ready for a game: drops the inputs, sets the round to
/// nothing, seats the players and gives them full health.
pub fn start_game_for_lobby(lobby: &mut Lobby)
    requires
        old(lobby).wf(),
    ensures
        final(lobby).wf(),
        game_started(*old(lobby), *final(lobby)),
{
    let ghost before = *lobby;
    lobby.client_messages = Vec::new();
    lobby.round = 0;
    let _ = update_initial_player_positions(lobby);
    let ghost seated = lobby.game_state.players@;
    reset_player_health(lobby);
    proof {
        lemma_same_peers(before.game_state.players@, seated);
        lemma_same_peers(seated, lobby.game_state.players@);
        assert forall|p: u64|
            holds_player(lobby.game_state.players@, p) <==> holds_player_client(
                lobby.clients@,
                p,
            ) by {
        }
    }
}

/// What the second half of a tick tells the host.
#[derive(Debug)]
pub struct TickOutcome {
    /// The snapshot of the new round, for every client.
    pub broadcast: Broadcast,
    /// The tick to arm the next deadline for, if the lobby still runs.
    pub next_deadline: Option<u128>,
}

/// The status of a running lobby once a round is closed: finished where
/// the round has reached its cap or at most one player is alive.
pub open spec fn status_after_round(round: int, players: Seq<PlayerEntry>) -> LobbyStatus {
    if round >= MAX_ROUNDS || count_alive(players) <= 1 {
        LobbyStatus::FINISHED
    } else {
        LobbyStatus::RUNNING
    }
}

/// `after` is the running lobby `before` with the round closed: under the
/// tick `fresh_tick`, one round on, with no input pending, and finished
/// where the round has reached its cap or at most one player is alive.
pub open spec fn round_closed(before: Lobby, after: Lobby, fresh_tick: u128) -> bool {
    &&& after.tick == fresh_tick
    &&& after.round == before.round + 1
    &&& after.client_messages@ == Seq::<PendingInput>::empty()
    &&& after.status == status_after_round(before.round + 1, before.game_state.players@)
    &&& after.game_state == before.game_state
    &&& after.tick_length_milli_seconds == before.tick_length_milli_seconds
    &&& after.id == before.id
    &&& after.clients == before.clients
}

/// Closes the round of a running lobby under the tick `fresh_tick` and
/// hands back the snapshot of the new round for every client, the last
/// one where the lobby is finished by it.
pub fn ping_clients_with_new_tick(lobby: &mut Lobby, fresh_tick: u128) -> (broadcast: Broadcast)
    requires
        old(lobby).wf(),
        old(lobby).status == LobbyStatus::RUNNING,
    ensures
        final(lobby).wf(),
        round_closed(*old(lobby), *final(lobby), fresh_tick),
        is_snapshot(*final(lobby), broadcast.game_state_out),
        broadcast.recipients@ == client_peers(final(lobby).clients@),
{
    lobby.tick = fresh_tick;
    lobby.round += 1;
    lobby.client_messages = Vec::new();
    let alive: usize = get_amount_of_players_alive(lobby);
    if lobby.round >= MAX_ROUNDS || alive <= 1 {
        lobby.status = LobbyStatus::FINISHED;
    }
    push_game_state_to_everyone(lobby)
}

/// What the second half of a tick hands back and leaves behind.
pub open spec fn update_finished(
    before: Lobby,
    after: Lobby,
    flights: Seq<Flight>,
    fresh_tick: u128,
    outcome: TickOutcome,
) -> bool {
    &&& after.game_state.entities@ == flown(before.game_state.entities@, flights)
    &&& players_hit(
        before.game_state.players@,
        after.game_state.players@,
        before.game_state.entities@,
        flights,
    )
    &&& after.tick == fresh_tick
    &&& after.round == before.round + 1
    &&& after.client_messages@ == Seq::<PendingInput>::empty()
    &&& after.status == status_after_round(before.round + 1, after.game_state.players@)
    &&& after.tick_length_milli_seconds == before.tick_length_milli_seconds
    &&& after.id == before.id
    &&& after.clients == before.clients
    &&& is_snapshot(after, outcome.broadcast.game_state_out)
    &&& outcome.broadcast.recipients@ == client_peers(after.clients@)
    &&& outcome.next_deadline == if after.status == LobbyStatus::RUNNING {
        Some(fresh_tick)
    } else {
        None
    }
}

/// The second half of a tick of a running lobby, under the tick
/// `fresh_tick`: moves the projectiles along `flights`, closes the round
/// and tells the host what to send and whether to arm the next deadline.
pub fn finish_lobby_update(lobby: &mut Lobby, flights: &Vec<Flight>, fresh_tick: u128) -> (outcome:
    TickOutcome)
    requires
        old(lobby).wf(),
        old(lobby).status == LobbyStatus::RUNNING,
        flights.len() == old(lobby).game_state.entities.len(),
    ensures
        final(lobby).wf(),
        update_finished(*old(lobby), *final(lobby), flights@, fresh_tick, outcome),
{
    let ghost before = *lobby;
    calculate_projectile_updates(&mut lobby.game_state, flights);
    proof {
        lemma_same_peers(before.game_state.players@, lobby.game_state.players@);
        assert forall|p: u64|
            holds_player(lobby.game_state.players@, p) <==> holds_player_client(
                lobby.clients@,
                p,
            ) by {
        }
        assert forall|p: u64| holds_input(lobby.client_messages@, p) implies holds_player(
            lobby.game_state.players@,
            p,
        ) by {
        }
    }
    let broadcast = ping_clients_with_new_tick(lobby, fresh_tick);
    let next_deadline: Option<u128> = match lobby.status {
        LobbyStatus::RUNNING => Some(lobby.tick),
        _ => None,
    };
    TickOutcome { broadcast, next_deadline }
}

/// The second half of a tick of a running lobby. The lobby's next tick is
/// freshly drawn, so the contract holds for some tick.
pub fn ping_clients_in_lobby(lobby: &mut Lobby, flights: &Vec<Flight>) -> (outcome: TickOutcome)
    requires
        old(lobby).wf(),
        old(lobby).status == LobbyStatus::RUNNING,
        flights.len() == old(lobby).game_state.entities.len(),
    ensures
        final(lobby).wf(),
        exists|fresh_tick: u128| #[trigger]
            update_finished(*old(lobby), *final(lobby), flights@, fresh_tick, outcome),
{
    let fresh_tick: u128 = fresh_uuid();
    finish_lobby_update(lobby, flights, fresh_tick)
}

/// `after` is `before` with the marks of its last action wiped; nothing
/// else of it changes.
pub open spec fn player_rested(before: Player, after: Player) -> bool {
    &&& after.last_action_success
    &&& after.error_message@ == Seq::<char>::empty()
    &&& after.x == before.x
    &&& after.y == before.y
    &&& after.rotation == before.rotation
    &&& after.health == before.health
    &&& after.entity_type == before.entity_type
    &&& after.id == before.id
    &&& after.name == before.name
    &&& after.color == before.color
}

/// The player that `peer` steers; meaningful where it steers one.
pub open spec fn player_of(players: Seq<PlayerEntry>, peer: u64) -> Player {
    players[player_peers(players).index_of(peer)].player
}

/// The projectiles that the inputs fire, in the order of the inputs: one
/// for each input that shoots, from where its player stands in `players`,
/// with the id that `ids` holds at the input's place.
pub open spec fn shots(players: Seq<PlayerEntry>, inputs: Seq<PendingInput>, ids: Seq<u128>) -> Seq<
    Projectile,
>
    decreases inputs.len(),
{
    if inputs.len() == 0 {
        Seq::empty()
    } else {
        let rest = shots(players, inputs.drop_last(), ids.drop_last());
        let input = inputs.last();
        let player = player_of(players, input.peer);
        if action_shoots(player, input.message) {
            rest.push(fired_projectile(player, input.peer, ids.last()))
        } else {
            rest
        }
    }
}

/// `after` is `before` with the pending inputs applied and dropped: a
/// player with an input has acted on it, a player without one only has
/// its marks wiped, and the projectiles fired stand behind the others.
pub open spec fn inputs_applied(before: Lobby, after: Lobby, ids: Seq<u128>) -> bool {
    let inputs = before.client_messages@;
    let players = before.game_state.players@;
    &&& after.game_state.players.len() == players.len()
    &&& forall|j: int|
        0 <= j < players.len() ==> (#[trigger] after.game_state.players[j]).peer == players[j].peer
    &&& forall|j: int, i: int|
        0 <= j < players.len() && 0 <= i < inputs.len() && (#[trigger] inputs[i]).peer
            == players[j].peer ==> player_acted(
            players[j].player,
            (#[trigger] after.game_state.players[j]).player,
            inputs[i].message,
        )
    &&& forall|j: int|
        0 <= j < players.len() && !holds_input(inputs, players[j].peer) ==> player_rested(
            players[j].player,
            (#[trigger] after.game_state.players[j]).player,
        )
    &&& after.game_state.entities@ == before.game_state.entities@ + shots(players, inputs, ids)
    &&& after.client_messages@ == Seq::<PendingInput>::empty()
    &&& after.tick == before.tick
    &&& after.round == before.round
    &&& after.tick_length_milli_seconds == before.tick_length_milli_seconds
    &&& after.id == before.id
    &&& after.clients == before.clients
    &&& after.status == before.status
}

/// Wipes the marks of the last action from every player.
fn reset_action_marks(game_state: &mut GameState)
    requires
        old(game_state).wf(),
    ensures
        final(game_state).wf(),
        final(game_state).entities == old(game_state).entities,
        final(game_state).players.len() == old(game_state).players.len(),
        forall|j: int|
            0 <= j < old(game_state).players.len() ==> {
                &&& (#[trigger] final(game_state).players[j]).peer == old(game_state).players[j].peer
                &&& player_rested(
                    old(game_state).players[j].player,
                    final(game_state).players[j].player,
                )
            },
{
    let ghost before = game_state.players@;
    let n: usize = game_state.players.len();
    let mut j: usize = 0;
    while j < n
        invariant
            j <= n,
            n == before.len(),
            game_state.players.len() == n,
            game_state.entities == old(game_state).entities,
            before == old(game_state).players@,
            old(game_state).wf(),
            forall|k: int|
                0 <= k < j ==> {
                    &&& (#[trigger] game_state.players[k]).peer == before[k].peer
                    &&& player_rested(before[k].player, game_state.players[k].player)
                },
            forall|k: int| j <= k < n ==> game_state.players[k] == before[k],
        decreases n - j,
    {
        let player = &mut game_state.players[j].player;
        player.error_message = String::new();
        player.last_action_success = true;
        j += 1;
    }
    proof {
        lemma_same_peers(before, game_state.players@);
        assert forall|k: int| 0 <= k < game_state.players.len() implies (
        #[trigger] game_state.players[k]).player.wf() by {
        }
    }
}

/// The first half of a tick: wipes the marks of the last tick, applies the
/// pending inputs in the order in which they came in, and drops them.
/// `projectile_ids` holds, at the place of each input, the id for the
/// projectile that it fires if it shoots.
pub fn apply_client_messages(lobby: &mut Lobby, projectile_ids: &Vec<u128>)
    requires
        old(lobby).wf(),
        projectile_ids.len() == old(lobby).client_messages.len(),
    ensures
        final(lobby).wf(),
        inputs_applied(*old(lobby), *final(lobby), projectile_ids@),
{
    let ghost before = *lobby;
    let ghost inputs = lobby.client_messages@;
    let ghost players = lobby.game_state.players@;
    let ghost ids = projectile_ids@;
    reset_action_marks(&mut lobby.game_state);
    let n: usize = lobby.client_messages.len();
    let mut k: usize = 0;
    while k < n
        invariant
            k <= n,
            n == inputs.len(),
            projectile_ids@ == ids,
            ids.len() == n,
            before.wf(),
            inputs == before.client_messages@,
            players == before.game_state.players@,
            lobby.client_messages@ == inputs,
            lobby.tick == before.tick,
            lobby.round == before.round,
            lobby.tick_length_milli_seconds == before.tick_length_milli_seconds,
            lobby.id == before.id,
            lobby.clients == before.clients,
            lobby.status == before.status,
            lobby.game_state.wf(),
            lobby.game_state.players.len() == players.len(),
            player_peers(lobby.game_state.players@) == player_peers(players),
            forall|j: int, i: int|
                0 <= j < players.len() && 0 <= i < k && (#[trigger] inputs[i]).peer
                    == players[j].peer ==> player_acted(
                    players[j].player,
                    (#[trigger] lobby.game_state.players[j]).player,
                    inputs[i].message,
                ),
            forall|j: int|
                0 <= j < players.len() && (forall|i: int|
                    0 <= i < k ==> (#[trigger] inputs[i]).peer != players[j].peer)
                    ==> player_rested(
                    players[j].player,
                    (#[trigger] lobby.game_state.players[j]).player,
                ),
            lobby.game_state.entities@ == before.game_state.entities@ + shots(
                players,
                inputs.take(k as int),
                ids.take(k as int),
            ),
        decreases n - k,
    {
        let input: PendingInput = lobby.client_messages[k];
        proof {
            assert(input_peers(inputs)[k as int] == input.peer);
            assert(holds_input(inputs, input.peer));
            assert(inputs.take(k + 1).drop_last() =~= inputs.take(k as int));
            assert(ids.take(k + 1).drop_last() =~= ids.take(k as int));
        }
        apply_client_message(input.message, input.peer, &mut lobby.game_state, projectile_ids[k]);
        proof {
            assert forall|i: int| 0 <= i < k implies (#[trigger] inputs[i]).peer != input.peer by {
                assert(input_peers(inputs)[i] == inputs[i].peer);
            }
            assert forall|j: int, i: int|
                0 <= j < players.len() && 0 <= i < k + 1 && (#[trigger] inputs[i]).peer
                    == players[j].peer implies player_acted(
                players[j].player,
                (#[trigger] lobby.game_state.players[j]).player,
                inputs[i].message,
            ) by {
                if i == k {
                    assert(player_peers(players)[j] == input.peer);
                }
            }
        }
        k += 1;
    }
    lobby.client_messages = Vec::new();
    proof {
        assert(inputs.take(n as int) =~= inputs);
        assert(ids.take(n as int) =~= ids);
        assert forall|j: int| 0 <= j < players.len() implies (
        #[trigger] lobby.game_state.players[j]).peer == players[j].peer by {
            assert(player_peers(lobby.game_state.players@)[j] == player_peers(players)[j]);
        }
        assert forall|j: int|
            0 <= j < players.len() && !holds_input(inputs, players[j].peer) implies player_rested(
            players[j].player,
            (#[trigger] lobby.game_state.players[j]).player,
        ) by {
            assert forall|i: int| 0 <= i < n implies (#[trigger] inputs[i]).peer
                != players[j].peer by {
                assert(input_peers(inputs)[i] == inputs[i].peer);
            }
        }
        assert forall|p: u64|
            holds_player(lobby.game_state.players@, p) <==> holds_player_client(
                lobby.clients@,
                p,
            ) by {
        }
    }
}

/// Whether an update of the lobby starts.
#[derive(Debug, Clone, Copy, PartialEq, Eq, Structural)]
pub enum UpdateStart {
    /// The inputs are applied; the host works out the flights and runs the
    /// second half.
    Started,
    /// The update was asked for under a tick that is no longer the
    /// lobby's: a timer that fired after its tick was closed.
    StaleTick,
    /// The lobby is not running.
    NotRunning,
}

/// Whether an update that is asked for under `expected_tick` starts.
pub open spec fn update_start(lobby: Lobby, expected_tick: u128) -> UpdateStart {
    if expected_tick != lobby.tick {
        UpdateStart::StaleTick
    } else if lobby.status != LobbyStatus::RUNNING {
        UpdateStart::NotRunning
    } else {
        UpdateStart::Started
    }
}

/// The first half of a tick, asked for under `expected_tick` by a timer or
/// because every player has answered. An update under a tick that is not
/// the lobby's, or of a lobby that is not running, changes nothing. Else
/// the pending inputs are applied and dropped; the ids of the projectiles
/// fired are freshly drawn, so the contract holds for some ids.
pub fn start_lobby_update(expected_tick: u128, lobby: &mut Lobby) -> (start: UpdateStart)
    requires
        old(lobby).wf(),
    ensures
        final(lobby).wf(),
        start == update_start(*old(lobby), expected_tick),
        start != UpdateStart::Started ==> *final(lobby) == *old(lobby),
        start == UpdateStart::Started ==> exists|ids: Seq<u128>| #[trigger]
            inputs_applied(*old(lobby), *final(lobby), ids),
{
    if expected_tick != lobby.tick {
        return UpdateStart::StaleTick;
    }
    match lobby.status {
        LobbyStatus::RUNNING => {},
        _ => {
            return UpdateStart::NotRunning;
        },
    }
    let n: usize = lobby.client_messages.len();
    let mut projectile_ids: Vec<u128> = Vec::new();
    let mut k: usize = 0;
    while k < n
        invariant
            k <= n,
            projectile_ids.len() == k,
            n == lobby.client_messages.len(),
            *lobby == *old(lobby),
        decreases n - k,
    {
        let id: u128 = match lobby.client_messages[k].message.action {
            ClientAction::SHOOT => fresh_uuid(),
            _ => 0,
        };
        projectile_ids.push(id);
        k += 1;
    }
    apply_client_messages(lobby, &projectile_ids);
    UpdateStart::Started
}

} // verus!
