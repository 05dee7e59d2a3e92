//! Laws of the library: what holds of every lobby and of every run of its
//! operations, stated over the same predicates as the operations' own
//! contracts.

use crate::actions::{
    action_error, action_succeeds, action_x, action_y, border_up_message, player_acted,
};
use crate::api_models::{ClientAction, ClientMessage};
use crate::client_handling::{input_outcome, input_stored, InputOutcome};
use crate::connections::{admit_result, lobby_not_open_message, Admission, ConnectRequest};
use crate::game::{
    connect_result, disconnect_result, inputs_applied, lobby_full_message, update_finished,
    update_start, ConnectOutcome, DisconnectOutcome, TickOutcome, UpdateStart,
};
use crate::models::{
    count_alive, input_peers, Client, ClientType, Flight, Lobby, LobbyStatus, Player, Projectile,
    Server, MAX_FIELD_SIZE_Y, MAX_PLAYERS_PER_LOBBY, MAX_ROUNDS,
};
use crate::projectiles::flown;
use vstd::prelude::*;

verus! {

/// The round of a lobby never passes its cap, and a running lobby has not
/// reached it.
pub proof fn law_round_within_cap(lobby: Lobby)
    requires
        lobby.wf(),
    ensures
        lobby.round <= MAX_ROUNDS,
        lobby.status == LobbyStatus::RUNNING ==> lobby.round < MAX_ROUNDS,
{
}

/// A lobby that still runs when a tick is done has at least two players
/// alive and has not reached the cap of rounds.
pub proof fn law_running_lobby_after_update(
    before: Lobby,
    after: Lobby,
    flights: Seq<Flight>,
    fresh_tick: u128,
    outcome: TickOutcome,
)
    requires
        before.wf(),
        before.status == LobbyStatus::RUNNING,
        update_finished(before, after, flights, fresh_tick, outcome),
    ensures
        after.round <= MAX_ROUNDS,
        after.status == LobbyStatus::RUNNING ==> after.round < MAX_ROUNDS && count_alive(
            after.game_state.players@,
        ) >= 2,
        after.status == LobbyStatus::RUNNING || after.status == LobbyStatus::FINISHED,
{
}

/// The snapshot that closes a tick carries the tick that the round was
/// closed under; where that tick is new, it differs from the tick of the
/// snapshot before.
pub proof fn law_update_broadcasts_new_tick(
    before: Lobby,
    after: Lobby,
    flights: Seq<Flight>,
    fresh_tick: u128,
    outcome: TickOutcome,
)
    requires
        update_finished(before, after, flights, fresh_tick, outcome),
    ensures
        outcome.broadcast.game_state_out.tick == fresh_tick,
        after.tick == fresh_tick,
        fresh_tick != before.tick ==> outcome.broadcast.game_state_out.tick != before.tick,
{
}

/// The snapshot sent when a player has joined carries the tick that the
/// join was made under.
pub proof fn law_join_broadcasts_new_tick(
    before: Lobby,
    after: Lobby,
    addr: u64,
    new_client: Client,
    player_id: u128,
    fresh_tick: u128,
    outcome: ConnectOutcome,
)
    requires
        connect_result(before, after, addr, new_client, player_id, fresh_tick, Ok(outcome)),
    ensures
        outcome.broadcast matches Some(broadcast) ==> broadcast.game_state_out.tick == fresh_tick
            && after.tick == fresh_tick,
        outcome.broadcast is None ==> after.tick == before.tick,
{
}

/// The snapshot sent when a player has left carries the tick that the
/// leave was made under.
pub proof fn law_leave_broadcasts_new_tick(
    before: Lobby,
    after: Lobby,
    addr: u64,
    fresh_tick: u128,
    outcome: DisconnectOutcome,
)
    requires
        disconnect_result(before, after, addr, fresh_tick, outcome),
    ensures
        outcome.broadcast matches Some(broadcast) ==> broadcast.game_state_out.tick == fresh_tick
            && after.tick == fresh_tick,
        outcome.broadcast is None ==> after.tick == before.tick,
{
}

/// No input is pending after either half of a tick.
pub proof fn law_no_input_pending_after_update(
    before: Lobby,
    middle: Lobby,
    after: Lobby,
    ids: Seq<u128>,
    flights: Seq<Flight>,
    fresh_tick: u128,
    outcome: TickOutcome,
)
    requires
        inputs_applied(before, middle, ids),
        update_finished(middle, after, flights, fresh_tick, outcome),
    ensures
        middle.client_messages@.len() == 0,
        after.client_messages@.len() == 0,
        forall|peer: u64| !after.has_input(peer),
{
}

/// A peer has at most one input taken per tick: once one is stored, every
/// further input of the peer is turned down as a duplicate, whatever tick
/// it answers, and changes nothing.
pub proof fn law_one_input_per_tick(
    before: Lobby,
    after: Lobby,
    peer: u64,
    first: ClientMessage,
    second: ClientMessage,
)
    requires
        before.wf(),
        input_outcome(before, peer, first.tick) == InputOutcome::Accepted,
        input_stored(before, after, peer, first),
    ensures
        input_outcome(after, peer, second.tick) == InputOutcome::DuplicateThisTick,
{
    let inputs = after.client_messages@;
    assert(input_peers(inputs)[inputs.len() - 1] == peer);
}

/// An input that answers another tick than the lobby's is never taken.
pub proof fn law_stale_input_turned_down(lobby: Lobby, peer: u64, tick: u128)
    requires
        tick != lobby.tick,
    ensures
        input_outcome(lobby, peer, tick) != InputOutcome::Accepted,
{
}

/// A player that asks to join a lobby that is not pending is turned down
/// with the reason, and nothing changes.
pub proof fn law_player_join_needs_pending_lobby(
    before: Server,
    after: Server,
    request: ConnectRequest,
    addr: u64,
    player_id: u128,
    fresh_tick: u128,
    result: Result<Admission, String>,
)
    requires
        before.has_lobby(request.lobby_id),
        request.client.client_type == ClientType::PLAYER,
        before.lobbies[before.lobby_index(request.lobby_id)].status != LobbyStatus::PENDING,
        admit_result(before, after, request, addr, player_id, fresh_tick, result),
    ensures
        after == before,
        result matches Err(message) && message@ == lobby_not_open_message(request.lobby_id_text@),
{
}

/// A player that asks to join a lobby with seven players is turned down
/// with the reason, and the lobby stays as it was.
pub proof fn law_eighth_player_turned_down(
    before: Lobby,
    after: Lobby,
    addr: u64,
    new_client: Client,
    player_id: u128,
    fresh_tick: u128,
    result: Result<ConnectOutcome, String>,
)
    requires
        before.game_state.players.len() == MAX_PLAYERS_PER_LOBBY,
        new_client.client_type == ClientType::PLAYER,
        connect_result(before, after, addr, new_client, player_id, fresh_tick, result),
    ensures
        after == before,
        result matches Err(message) && message@ == lobby_full_message(),
{
}

/// A step up and a step down that both take effect bring a player back to
/// where it stood, in either order; so do a step right and a step left.
pub proof fn law_opposite_moves_cancel(
    start: Player,
    middle: Player,
    end: Player,
    first: ClientMessage,
    second: ClientMessage,
)
    requires
        (first.action == ClientAction::UP && second.action == ClientAction::DOWN) || (first.action
            == ClientAction::DOWN && second.action == ClientAction::UP) || (first.action
            == ClientAction::LEFT && second.action == ClientAction::RIGHT) || (first.action
            == ClientAction::RIGHT && second.action == ClientAction::LEFT),
        player_acted(start, middle, first),
        player_acted(middle, end, second),
        middle.last_action_success,
        end.last_action_success,
    ensures
        end.x == start.x,
        end.y == start.y,
        end.rotation == start.rotation,
        end.health == start.health,
{
}

/// A living player on the upper border cannot step up: the action fails
/// with the border message and the player stays where it is.
pub proof fn law_up_at_border_fails(player: Player, message: ClientMessage)
    requires
        player.y == MAX_FIELD_SIZE_Y - 1,
        player.health > 0,
        message.action == ClientAction::UP,
    ensures
        !action_succeeds(player, message),
        action_error(player, message) == border_up_message(),
        action_x(player, message) == player.x,
        action_y(player, message) == player.y,
{
}

/// A living player's turn takes effect exactly where the angle is given
/// and lies between 0 and 360, both included.
pub proof fn law_turn_range(player: Player, message: ClientMessage)
    requires
        player.health > 0,
        message.action == ClientAction::TURN,
    ensures
        action_succeeds(player, message) <==> (message.degrees matches Some(degrees) && 0
            <= degrees <= 360),
        message.degrees == Some(0i32) ==> action_succeeds(player, message),
        message.degrees == Some(360i32) ==> action_succeeds(player, message),
        message.degrees == Some(-1i32) ==> !action_succeeds(player, message),
        message.degrees == Some(361i32) ==> !action_succeeds(player, message),
{
}

/// A dead player's action never takes effect: the player stays where it
/// is, whatever it asked for.
pub proof fn law_dead_player_stays(player: Player, message: ClientMessage)
    requires
        player.health <= 0,
    ensures
        !action_succeeds(player, message),
        action_x(player, message) == player.x,
        action_y(player, message) == player.y,
{
}

/// A projectile that has left the field is gone after the tick, and one
/// in the field is still there, at the end of its flight.
pub proof fn law_projectile_outside_field_dropped(projectile: Projectile, flight: Flight)
    ensures
        !projectile.in_field() ==> flown(seq![projectile], seq![flight]).len() == 0,
        projectile.in_field() ==> flown(seq![projectile], seq![flight]).len() == 1 && flown(
            seq![projectile],
            seq![flight],
        )[0].x == flight.end_x && flown(seq![projectile], seq![flight])[0].y == flight.end_y,
{
    let entities = seq![projectile];
    let flights = seq![flight];
    assert(flown(entities.drop_last(), flights.drop_last()) =~= Seq::<Projectile>::empty());
}

/// A tick is advanced once: when its round is closed under a new tick, a
/// further update asked for under the old tick does not start, whether a
/// timer or the players' answers ask for it.
pub proof fn law_one_update_per_tick(
    before: Lobby,
    after: Lobby,
    flights: Seq<Flight>,
    fresh_tick: u128,
    outcome: TickOutcome,
)
    requires
        update_finished(before, after, flights, fresh_tick, outcome),
        fresh_tick != before.tick,
    ensures
        update_start(after, before.tick) == UpdateStart::StaleTick,
{
}

/// A finished lobby takes no input and starts no update.
pub proof fn law_finished_lobby_is_inert(lobby: Lobby, peer: u64, tick: u128)
    requires
        lobby.status == LobbyStatus::FINISHED,
    ensures
        input_outcome(lobby, peer, tick) == InputOutcome::NotRunning,
        update_start(lobby, tick) != UpdateStart::Started,
{
}

/// A finished lobby sends nothing more and stays finished under its
/// tick, whoever leaves it.
pub proof fn law_finished_lobby_is_silent(
    before: Lobby,
    after: Lobby,
    addr: u64,
    fresh_tick: u128,
    outcome: DisconnectOutcome,
)
    requires
        before.status == LobbyStatus::FINISHED,
        disconnect_result(before, after, addr, fresh_tick, outcome),
    ensures
        outcome.broadcast is None,
        outcome.next_deadline is None,
        after.status == LobbyStatus::FINISHED,
        after.tick == before.tick,
{
}

} // verus!
