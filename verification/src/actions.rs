//! What one action does to the player that asked for it.
//!
//! A player contributes at most one action to a tick. The action either
//! takes effect, or it leaves the player where it is and marks it with the
//! reason. A dead player's action never takes effect.

use crate::ids::fresh_uuid;
use crate::tables::lemma_index_of_unique;
use crate::api_models::{ClientAction, ClientMessage};
use crate::models::{
    player_peers, GameState, Player, Projectile, COORD_SCALE, MAX_FIELD_SIZE_X, MAX_FIELD_SIZE_Y,
    PROJECTILE_UNIT_LENGTH_TRAVEL_DISTANCE,
};
use vstd::prelude::*;
use vstd::string::StringExecFns;

verus! {

pub open spec fn no_health_message() -> Seq<char> {
    "Message was not processed, because player has no more health left"@
}

pub open spec fn turn_without_degrees_message() -> Seq<char> {
    "Cannot TURN, because no 'degrees' property was supplied"@
}

pub open spec fn turn_out_of_range_message() -> Seq<char> {
    "Cannot TURN, because 'degrees' is not within range (0 - 360)"@
}

pub open spec fn border_up_message() -> Seq<char> {
    "Cannot move UP, because player is at border of field"@
}

pub open spec fn border_down_message() -> Seq<char> {
    "Cannot move DOWN, because player is at border of field"@
}

pub open spec fn border_left_message() -> Seq<char> {
    "Cannot move LEFT, because player is at border of field"@
}

pub open spec fn border_right_message() -> Seq<char> {
    "Cannot move RIGHT, because player is at border of field"@
}

/// Whether the action takes effect on the player as it stands.
pub open spec fn action_succeeds(player: Player, message: ClientMessage) -> bool {
    player.health > 0 && match message.action {
        ClientAction::SHOOT => true,
        ClientAction::TURN => message.degrees matches Some(degrees) && 0 <= degrees <= 360,
        ClientAction::UP => player.y < MAX_FIELD_SIZE_Y - 1,
        ClientAction::DOWN => player.y > 0,
        ClientAction::RIGHT => player.x < MAX_FIELD_SIZE_X - 1,
        ClientAction::LEFT => player.x > 0,
    }
}

/// The message left on the player: empty where the action takes effect,
/// the reason where it does not.
pub open spec fn action_error(player: Player, message: ClientMessage) -> Seq<char> {
    if action_succeeds(player, message) {
        Seq::<char>::empty()
    } else if player.health <= 0 {
        no_health_message()
    } else {
        match message.action {
            ClientAction::SHOOT => Seq::<char>::empty(),
            ClientAction::TURN => if message.degrees is None {
                turn_without_degrees_message()
            } else {
                turn_out_of_range_message()
            },
            ClientAction::UP => border_up_message(),
            ClientAction::DOWN => border_down_message(),
            ClientAction::RIGHT => border_right_message(),
            ClientAction::LEFT => border_left_message(),
        }
    }
}

/// The player's column after the action.
pub open spec fn action_x(player: Player, message: ClientMessage) -> int {
    if !action_succeeds(player, message) {
        player.x as int
    } else if message.action == ClientAction::RIGHT {
        player.x + 1
    } else if message.action == ClientAction::LEFT {
        player.x - 1
    } else {
        player.x as int
    }
}

/// The player's row after the action.
pub open spec fn action_y(player: Player, message: ClientMessage) -> int {
    if !action_succeeds(player, message) {
        player.y as int
    } else if message.action == ClientAction::UP {
        player.y + 1
    } else if message.action == ClientAction::DOWN {
        player.y - 1
    } else {
        player.y as int
    }
}

/// The player's rotation after the action.
pub open spec fn action_rotation(player: Player, message: ClientMessage) -> int {
    if action_succeeds(player, message) && message.action == ClientAction::TURN {
        message.degrees->0 as int
    } else {
        player.rotation as int
    }
}

/// Whether the action puts a projectile on the field.
pub open spec fn action_shoots(player: Player, message: ClientMessage) -> bool {
    player.health > 0 && message.action == ClientAction::SHOOT
}

/// The projectile that `player`, steered by `peer`, fires: it starts on the
/// player's cell and flies where the player looks.
pub open spec fn fired_projectile(player: Player, peer: u64, id: u128) -> Projectile {
    Projectile {
        id,
        previous_x: (player.x * COORD_SCALE) as i64,
        previous_y: (player.y * COORD_SCALE) as i64,
        x: (player.x * COORD_SCALE) as i64,
        y: (player.y * COORD_SCALE) as i64,
        travel_distance: PROJECTILE_UNIT_LENGTH_TRAVEL_DISTANCE,
        direction: player.rotation,
        source: peer,
    }
}

/// `after` is `before` with the action of `message` applied to `player`:
/// position, rotation and the two marks follow the action, the rest stays.
pub open spec fn player_acted(before: Player, after: Player, message: ClientMessage) -> bool {
    &&& after.entity_type == before.entity_type
    &&& after.id == before.id
    &&& after.name == before.name
    &&& after.color == before.color
    &&& after.health == before.health
    &&& after.x == action_x(before, message)
    &&& after.y == action_y(before, message)
    &&& after.rotation == action_rotation(before, message)
    &&& after.last_action_success == action_succeeds(before, message)
    &&& after.error_message@ == action_error(before, message)
}

/// `after` is `before` with the action of `message` applied for `peer`:
/// only the player of `peer` changes, and a shot appends one projectile,
/// with the id `projectile_id`, behind the others.
pub open spec fn action_applied(
    before: GameState,
    after: GameState,
    peer: u64,
    message: ClientMessage,
    projectile_id: u128,
) -> bool {
    let i = before.player_index(peer);
    &&& after.players.len() == before.players.len()
    &&& forall|j: int|
        0 <= j < before.players.len() && j != i ==> after.players[j] == before.players[j]
    &&& after.players[i].peer == peer
    &&& player_acted(before.players[i].player, after.players[i].player, message)
    &&& after.entities@ == if action_shoots(before.players[i].player, message) {
        before.entities@.push(fired_projectile(before.players[i].player, peer, projectile_id))
    } else {
        before.entities@
    }
}

/// Finds the player that `peer` steers.
pub fn find_player(game_state: &GameState, peer: u64) -> (found: Option<usize>)
    requires
        game_state.wf(),
    ensures
        found is Some <==> game_state.has_player(peer),
        found matches Some(i) ==> i < game_state.players.len() && game_state.players[i as int].peer
            == peer && i == game_state.player_index(peer),
{
    let mut i: usize = 0;
    while i < game_state.players.len()
        invariant
            i <= game_state.players.len(),
            game_state.wf(),
            forall|j: int| 0 <= j < i ==> game_state.players[j].peer != peer,
        decreases game_state.players.len() - i,
    {
        if game_state.players[i].peer == peer {
            proof {
                lemma_index_of_unique(player_peers(game_state.players@), i as int, peer);
            }
            return Some(i);
        }
        i += 1;
    }
    None
}

/// Applies the action of `client_message` to the player of `addr`, with
/// `projectile_id` as the id of the projectile if the action fires one.
pub fn apply_client_message(
    client_message: ClientMessage,
    addr: u64,
    game_state: &mut GameState,
    projectile_id: u128,
)
    requires
        old(game_state).wf(),
        old(game_state).has_player(addr),
    ensures
        final(game_state).wf(),
        player_peers(final(game_state).players@) == player_peers(old(game_state).players@),
        action_applied(*old(game_state), *final(game_state), addr, client_message, projectile_id),
{
    let found = find_player(game_state, addr);
    let i: usize = found.unwrap();
    let ghost before = *game_state;
    let player = &mut game_state.players[i].player;

    player.error_message = String::new();
    player.last_action_success = true;

    if player.health <= 0 {
        player.last_action_success = false;
        player.error_message = String::from_str(
            "Message was not processed, because player has no more health left",
        );
    } else {
        match client_message.action {
            ClientAction::SHOOT => {
                let x: i64 = player.x as i64 * COORD_SCALE;
                let y: i64 = player.y as i64 * COORD_SCALE;
                let new_projectile = Projectile {
                    travel_distance: PROJECTILE_UNIT_LENGTH_TRAVEL_DISTANCE,
                    id: projectile_id,
                    previous_x: x,
                    previous_y: y,
                    x,
                    y,
                    direction: player.rotation,
                    source: addr,
                };
                game_state.entities.push(new_projectile);
            },
            ClientAction::TURN => {
                match client_message.degrees {
                    None => {
                        player.error_message = String::from_str(
                            "Cannot TURN, because no 'degrees' property was supplied",
                        );
                        player.last_action_success = false;
                    },
                    Some(degrees) => {
                        if !(degrees >= 0 && degrees <= 360) {
                            player.error_message = String::from_str(
                                "Cannot TURN, because 'degrees' is not within range (0 - 360)",
                            );
                            player.last_action_success = false;
                        } else {
                            player.rotation = degrees;
                        }
                    },
                }
            },
            ClientAction::UP => {
                if player.y < MAX_FIELD_SIZE_Y - 1 {
                    player.y += 1;
                } else {
                    player.error_message = String::from_str(
                        "Cannot move UP, because player is at border of field",
                    );
                    player.last_action_success = false;
                }
            },
            ClientAction::DOWN => {
                if player.y > 0 {
                    player.y -= 1;
                } else {
                    player.error_message = String::from_str(
                        "Cannot move DOWN, because player is at border of field",
                    );
                    player.last_action_success = false;
                }
            },
            ClientAction::RIGHT => {
                if player.x < MAX_FIELD_SIZE_X - 1 {
                    player.x += 1;
                } else {
                    player.error_message = String::from_str(
                        "Cannot move RIGHT, because player is at border of field",
                    );
                    player.last_action_success = false;
                }
            },
            ClientAction::LEFT => {
                if player.x > 0 {
                    player.x -= 1;
                } else {
                    player.error_message = String::from_str(
                        "Cannot move LEFT, because player is at border of field",
                    );
                    player.last_action_success = false;
                }
            },
        }
    }
    proof {
        assert(player_peers(game_state.players@) =~= player_peers(before.players@));
    }
}

/// Applies the action of `client_message` to the player of `addr`. A shot
/// gets a freshly drawn id, so the contract holds for some id.
pub fn handle_client_message(client_message: ClientMessage, addr: u64, game_state: &mut GameState)
    requires
        old(game_state).wf(),
        old(game_state).has_player(addr),
    ensures
        final(game_state).wf(),
        player_peers(final(game_state).players@) == player_peers(old(game_state).players@),
        exists|projectile_id: u128| #[trigger]
            action_applied(
                *old(game_state),
                *final(game_state),
                addr,
                client_message,
                projectile_id,
            ),
{
    let projectile_id: u128 = match client_message.action {
        ClientAction::SHOOT => fresh_uuid(),
        _ => 0,
    };
    apply_client_message(client_message, addr, game_state, projectile_id);
}

} // verus!
