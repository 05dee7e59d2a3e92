//! One tick of projectile flight.
//!
//! A projectile that has left the field is dropped. Every other one flies
//! on: the players on the cells that it passes lose health, but for the
//! player that fired it, and it comes to rest at the end of its flight. The
//! cells and the end of each flight come from the host, which has the
//! trigonometry; what they do to the game is decided here.

use crate::models::{
    player_peers, Flight, GameState, Player, PlayerEntry, Projectile, COORD_SCALE, HIT_DAMAGE,
    MAX_FIELD_SIZE_X, MAX_FIELD_SIZE_Y,
};
use vstd::prelude::*;

verus! {

/// The projectile after a flight that ends at `(end_x, end_y)`.
pub open spec fn moved(projectile: Projectile, end_x: i64, end_y: i64) -> Projectile {
    Projectile {
        previous_x: projectile.x,
        previous_y: projectile.y,
        x: end_x,
        y: end_y,
        ..projectile
    }
}

/// The projectiles after one tick: those of `entities` that are in the
/// field, in their order, each moved to the end of its flight.
pub open spec fn flown(entities: Seq<Projectile>, flights: Seq<Flight>) -> Seq<Projectile>
    decreases entities.len(),
{
    if entities.len() == 0 {
        Seq::empty()
    } else {
        let rest = flown(entities.drop_last(), flights.drop_last());
        if entities.last().in_field() {
            rest.push(moved(entities.last(), flights.last().end_x, flights.last().end_y))
        } else {
            rest
        }
    }
}

/// Whether a projectile fired by `source` on `flight` hits the player of
/// `peer` on cell `(x, y)`.
pub open spec fn hits(flight: Flight, source: u64, peer: u64, x: i32, y: i32) -> bool {
    flight.cells@.contains((x, y)) && source != peer
}

/// How many of the projectiles in the field hit the player of `peer` on
/// cell `(x, y)` in this tick.
pub open spec fn hit_count(
    entities: Seq<Projectile>,
    flights: Seq<Flight>,
    peer: u64,
    x: i32,
    y: i32,
) -> nat
    decreases entities.len(),
{
    if entities.len() == 0 {
        0
    } else {
        hit_count(entities.drop_last(), flights.drop_last(), peer, x, y) + if entities.last().in_field()
            && hits(flights.last(), entities.last().source, peer, x, y) {
            1nat
        } else {
            0nat
        }
    }
}

/// Health after `count` hits: each takes `HIT_DAMAGE`, and health never
/// falls below nothing.
pub open spec fn damaged(health: int, count: nat) -> int {
    if health - HIT_DAMAGE * count < 0 {
        0
    } else {
        health - HIT_DAMAGE * count
    }
}

/// `after` is `before` with `count` hits taken; nothing else of it changes.
pub open spec fn player_hit(before: Player, after: Player, count: nat) -> bool {
    &&& after.health == damaged(before.health as int, count)
    &&& after.x == before.x
    &&& after.y == before.y
    &&& after.rotation == before.rotation
    &&& after.entity_type == before.entity_type
    &&& after.id == before.id
    &&& after.name == before.name
    &&& after.color == before.color
    &&& after.last_action_success == before.last_action_success
    &&& after.error_message == before.error_message
}

/// `after` holds the players of `before`, in the same order and steered by
/// the same peers, each with the hits taken that the projectiles of
/// `entities` deal on their flights.
pub open spec fn players_hit(
    before: Seq<PlayerEntry>,
    after: Seq<PlayerEntry>,
    entities: Seq<Projectile>,
    flights: Seq<Flight>,
) -> bool {
    &&& after.len() == before.len()
    &&& forall|j: int|
        0 <= j < before.len() ==> {
            &&& (#[trigger] after[j]).peer == before[j].peer
            &&& player_hit(
                before[j].player,
                after[j].player,
                hit_count(entities, flights, before[j].peer, before[j].player.x, before[j].player.y),
            )
        }
}

/// Whether `(x, y)` is one of `cells`.
pub fn contains_cell(cells: &Vec<(i32, i32)>, x: i32, y: i32) -> (found: bool)
    ensures
        found == cells@.contains((x, y)),
{
    let mut i: usize = 0;
    while i < cells.len()
        invariant
            i <= cells.len(),
            forall|k: int| 0 <= k < i ==> cells[k] != (x, y),
        decreases cells.len() - i,
    {
        let cell = cells[i];
        if cell.0 == x && cell.1 == y {
            return true;
        }
        i += 1;
    }
    false
}

/// Whether the projectile is kept at the start of a tick.
pub fn is_in_field(projectile: &Projectile) -> (kept: bool)
    ensures
        kept == projectile.in_field(),
{
    let max_x: i64 = MAX_FIELD_SIZE_X as i64 * COORD_SCALE;
    let max_y: i64 = MAX_FIELD_SIZE_Y as i64 * COORD_SCALE;
    !(projectile.x < 0 || projectile.y < 0 || projectile.x > max_x || projectile.y > max_y)
}

/// Takes health from every player that one projectile hits on its flight.
fn damage_players(game_state: &mut GameState, flight: &Flight, source: u64)
    requires
        old(game_state).wf(),
    ensures
        final(game_state).wf(),
        final(game_state).entities == old(game_state).entities,
        final(game_state).players.len() == old(game_state).players.len(),
        forall|j: int|
            0 <= j < old(game_state).players.len() ==> {
                let before = old(game_state).players[j];
                &&& (#[trigger] final(game_state).players[j]).peer == before.peer
                &&& player_hit(
                    before.player,
                    final(game_state).players[j].player,
                    if hits(*flight, source, before.peer, before.player.x, before.player.y) {
                        1nat
                    } else {
                        0nat
                    },
                )
            },
{
    let ghost before = game_state.players@;
    let n: usize = game_state.players.len();
    let mut j: usize = 0;
    while j < n
        invariant
            j <= n,
            n == before.len(),
            n <= 7,
            game_state.players.len() == n,
            game_state.entities == old(game_state).entities,
            before == old(game_state).players@,
            old(game_state).wf(),
            forall|k: int|
                0 <= k < j ==> {
                    &&& (#[trigger] game_state.players[k]).peer == before[k].peer
                    &&& player_hit(
                        before[k].player,
                        game_state.players[k].player,
                        if hits(*flight, source, before[k].peer, before[k].player.x, before[k].player.y) {
                            1nat
                        } else {
                            0nat
                        },
                    )
                },
            forall|k: int| j <= k < n ==> game_state.players[k] == before[k],
        decreases n - j,
    {
        let peer: u64 = game_state.players[j].peer;
        let player = &mut game_state.players[j].player;
        if contains_cell(&flight.cells, player.x, player.y) && source != peer {
            player.health = if player.health >= HIT_DAMAGE {
                player.health - HIT_DAMAGE
            } else {
                0
            };
        }
        j += 1;
    }
    proof {
        assert forall|k: int| 0 <= k < game_state.players.len() implies (
        #[trigger] game_state.players[k]).player.wf() by {
        }
        assert(player_peers(game_state.players@) =~= player_peers(
            before,
        ));
    }
}

/// Runs one tick of projectile flight.
///
/// `flights` holds, for each projectile of the game and in their order,
/// the flight that the host worked out for it. Projectiles outside the
/// field are dropped and their flights ignored. Every other projectile
/// takes `HIT_DAMAGE` from each player on a cell of its flight, but for the
/// player that fired it, and moves to the end of its flight.
pub fn calculate_projectile_updates(game_state: &mut GameState, flights: &Vec<Flight>)
    requires
        old(game_state).wf(),
        flights.len() == old(game_state).entities.len(),
    ensures
        final(game_state).wf(),
        final(game_state).entities@ == flown(old(game_state).entities@, flights@),
        players_hit(
            old(game_state).players@,
            final(game_state).players@,
            old(game_state).entities@,
            flights@,
        ),
{
    let ghost before = game_state.players@;
    let ghost entities = game_state.entities@;
    let n: usize = game_state.entities.len();
    let mut remaining: Vec<Projectile> = Vec::new();
    let mut i: usize = 0;
    proof {
        assert forall|j: int| 0 <= j < before.len() implies player_hit(
            before[j].player,
            #[trigger] game_state.players[j].player,
            hit_count(
                entities.take(0),
                flights@.take(0),
                before[j].peer,
                before[j].player.x,
                before[j].player.y,
            ),
        ) by {
        }
    }
    while i < n
        invariant
            i <= n,
            n == entities.len(),
            flights.len() == n,
            game_state.entities@ == entities,
            before == old(game_state).players@,
            old(game_state).wf(),
            game_state.wf(),
            remaining@ == flown(entities.take(i as int), flights@.take(i as int)),
            players_hit(before, game_state.players@, entities.take(i as int), flights@.take(i as int)),
        decreases n - i,
    {
        let projectile: Projectile = game_state.entities[i];
        proof {
            assert(entities.take(i + 1).drop_last() =~= entities.take(i as int));
            assert(flights@.take(i + 1).drop_last() =~= flights@.take(i as int));
        }
        if is_in_field(&projectile) {
            let flight = &flights[i];
            damage_players(game_state, flight, projectile.source);
            remaining.push(
                Projectile {
                    id: projectile.id,
                    previous_x: projectile.x,
                    previous_y: projectile.y,
                    x: flight.end_x,
                    y: flight.end_y,
                    travel_distance: projectile.travel_distance,
                    direction: projectile.direction,
                    source: projectile.source,
                },
            );
        }
        i += 1;
    }
    proof {
        assert(entities.take(n as int) =~= entities);
        assert(flights@.take(n as int) =~= flights@);
    }
    game_state.entities = remaining;
}

} // verus!
