//! Where players start and which color each gets.
//!
//! A formation seats a given number of players; the players of a lobby take
//! its places in the order in which they joined. The n-th player to join
//! gets the n-th color.

use crate::models::{count_alive, Lobby, Player, PlayerEntry, FULL_HEALTH, MAX_PLAYERS_PER_LOBBY};
use vstd::prelude::*;
use vstd::string::StringExecFns;

verus! {

/// The places of the formation for `player_count` players, each a column, a
/// row and a rotation. There is none for more than seven players.
pub open spec fn formation(player_count: int) -> Seq<(i32, i32, i32)> {
    if player_count == 1 {
        seq![(14i32, 14i32, 0i32)]
    } else if player_count == 2 {
        seq![(5i32, 14i32, 270i32), (24i32, 14i32, 90i32)]
    } else if player_count == 3 {
        seq![(5i32, 5i32, 270i32), (24i32, 5i32, 90i32), (14i32, 24i32, 0i32)]
    } else if player_count == 4 {
        seq![(5i32, 5i32, 270i32), (24i32, 5i32, 90i32), (5i32, 24i32, 270i32), (24i32, 24i32, 90i32)]
    } else if player_count == 5 {
        seq![
            (5i32, 5i32, 270i32),
            (24i32, 5i32, 90i32),
            (5i32, 24i32, 270i32),
            (24i32, 24i32, 90i32),
            (14i32, 14i32, 0i32),
        ]
    } else if player_count == 6 {
        seq![
            (5i32, 5i32, 270i32),
            (5i32, 14i32, 270i32),
            (5i32, 24i32, 270i32),
            (24i32, 5i32, 90i32),
            (24i32, 14i32, 90i32),
            (24i32, 24i32, 90i32),
        ]
    } else if player_count == 7 {
        seq![
            (5i32, 5i32, 270i32),
            (5i32, 14i32, 270i32),
            (5i32, 24i32, 270i32),
            (24i32, 5i32, 90i32),
            (24i32, 14i32, 90i32),
            (24i32, 24i32, 90i32),
            (14i32, 14i32, 0i32),
        ]
    } else {
        Seq::empty()
    }
}

/// The color of the `n`-th player to join, counted from one.
pub open spec fn player_color(n: int) -> Seq<char> {
    if n == 1 {
        "#FF0000"@
    } else if n == 2 {
        "#00FF00"@
    } else if n == 3 {
        "#0000FF"@
    } else if n == 4 {
        "#C800FF"@
    } else if n == 5 {
        "#00FFE1"@
    } else if n == 6 {
        "#FF9D00"@
    } else {
        "#0F754C"@
    }
}

pub open spec fn formation_error_message() -> Seq<char> {
    "Cannot add player, because no starting formation is maintained for the player count."@
}

/// Every formation has a place for each of its players, and every place is
/// on the field.
pub proof fn lemma_formation_places(player_count: int)
    requires
        0 <= player_count <= MAX_PLAYERS_PER_LOBBY,
    ensures
        formation(player_count).len() == player_count,
        forall|i: int|
            0 <= i < player_count ==> {
                let place = #[trigger] formation(player_count)[i];
                &&& 0 <= place.0 < 30
                &&& 0 <= place.1 < 30
                &&& 0 <= place.2 <= 360
            },
{
}

/// The formation for `player_count` players, or `None` where more than
/// seven would have to be seated.
pub fn starting_formation(player_count: usize) -> (places: Option<Vec<(i32, i32, i32)>>)
    ensures
        places is Some <==> player_count <= MAX_PLAYERS_PER_LOBBY,
        places matches Some(v) ==> v@ == formation(player_count as int),
{
    let places: Vec<(i32, i32, i32)> = if player_count == 0 {
        Vec::new()
    } else if player_count == 1 {
        vec![(14, 14, 0)]
    } else if player_count == 2 {
        vec![(5, 14, 270), (24, 14, 90)]
    } else if player_count == 3 {
        vec![(5, 5, 270), (24, 5, 90), (14, 24, 0)]
    } else if player_count == 4 {
        vec![(5, 5, 270), (24, 5, 90), (5, 24, 270), (24, 24, 90)]
    } else if player_count == 5 {
        vec![(5, 5, 270), (24, 5, 90), (5, 24, 270), (24, 24, 90), (14, 14, 0)]
    } else if player_count == 6 {
        vec![(5, 5, 270), (5, 14, 270), (5, 24, 270), (24, 5, 90), (24, 14, 90), (24, 24, 90)]
    } else if player_count == 7 {
        vec![
            (5, 5, 270),
            (5, 14, 270),
            (5, 24, 270),
            (24, 5, 90),
            (24, 14, 90),
            (24, 24, 90),
            (14, 14, 0),
        ]
    } else {
        return None;
    };
    Some(places)
}

/// The color for the `n`-th player to join, counted from one, or `None`
/// where `n` is not one of the seven.
pub fn color_for_player(n: usize) -> (color: Option<String>)
    ensures
        color is Some <==> 1 <= n <= MAX_PLAYERS_PER_LOBBY,
        color matches Some(c) ==> c@ == player_color(n as int),
{
    if n == 1 {
        Some(String::from_str("#FF0000"))
    } else if n == 2 {
        Some(String::from_str("#00FF00"))
    } else if n == 3 {
        Some(String::from_str("#0000FF"))
    } else if n == 4 {
        Some(String::from_str("#C800FF"))
    } else if n == 5 {
        Some(String::from_str("#00FFE1"))
    } else if n == 6 {
        Some(String::from_str("#FF9D00"))
    } else if n == 7 {
        Some(String::from_str("#0F754C"))
    } else {
        None
    }
}

/// `after` is `before` moved to `place`; nothing else of it changes.
pub open spec fn player_seated(before: Player, after: Player, place: (i32, i32, i32)) -> bool {
    &&& after.x == place.0
    &&& after.y == place.1
    &&& after.rotation == place.2
    &&& after.entity_type == before.entity_type
    &&& after.id == before.id
    &&& after.name == before.name
    &&& after.color == before.color
    &&& after.health == before.health
    &&& after.last_action_success == before.last_action_success
    &&& after.error_message == before.error_message
}

/// `after` holds the players of `before`, in the same order and steered by
/// the same peers, each on its place of the formation for their number.
pub open spec fn players_seated(before: Seq<PlayerEntry>, after: Seq<PlayerEntry>) -> bool {
    &&& after.len() == before.len()
    &&& forall|i: int|
        0 <= i < before.len() ==> {
            &&& (#[trigger] after[i]).peer == before[i].peer
            &&& player_seated(before[i].player, after[i].player, formation(before.len() as int)[i])
        }
}

/// `after` is `before` at full health; nothing else of it changes.
pub open spec fn player_healed(before: Player, after: Player) -> bool {
    &&& after.health == FULL_HEALTH
    &&& after.x == before.x
    &&& after.y == before.y
    &&& after.rotation == before.rotation
    &&& after.entity_type == before.entity_type
    &&& after.id == before.id
    &&& after.name == before.name
    &&& after.color == before.color
    &&& after.last_action_success == before.last_action_success
    &&& after.error_message == before.error_message
}

/// `after` holds the players of `before`, in the same order and steered by
/// the same peers, each at full health.
pub open spec fn players_healed(before: Seq<PlayerEntry>, after: Seq<PlayerEntry>) -> bool {
    &&& after.len() == before.len()
    &&& forall|i: int|
        0 <= i < before.len() ==> {
            &&& (#[trigger] after[i]).peer == before[i].peer
            &&& player_healed(before[i].player, after[i].player)
        }
}

/// Gives every player of the lobby full health.
pub fn reset_player_health(lobby: &mut Lobby)
    ensures
        players_healed(old(lobby).game_state.players@, final(lobby).game_state.players@),
        final(lobby).game_state.entities == old(lobby).game_state.entities,
        final(lobby).round == old(lobby).round,
        final(lobby).tick == old(lobby).tick,
        final(lobby).tick_length_milli_seconds == old(lobby).tick_length_milli_seconds,
        final(lobby).id == old(lobby).id,
        final(lobby).clients == old(lobby).clients,
        final(lobby).client_messages == old(lobby).client_messages,
        final(lobby).status == old(lobby).status,
{
    let ghost before = lobby.game_state.players@;
    let n: usize = lobby.game_state.players.len();
    let mut i: usize = 0;
    while i < n
        invariant
            i <= n,
            n == before.len(),
            lobby.game_state.players.len() == n,
            forall|j: int|
                0 <= j < i ==> {
                    &&& (#[trigger] lobby.game_state.players[j]).peer == before[j].peer
                    &&& player_healed(before[j].player, lobby.game_state.players[j].player)
                },
            forall|j: int| i <= j < n ==> lobby.game_state.players[j] == before[j],
            lobby.game_state.entities == old(lobby).game_state.entities,
            lobby.round == old(lobby).round,
            lobby.tick == old(lobby).tick,
            lobby.tick_length_milli_seconds == old(lobby).tick_length_milli_seconds,
            lobby.id == old(lobby).id,
            lobby.clients == old(lobby).clients,
            lobby.client_messages == old(lobby).client_messages,
            lobby.status == old(lobby).status,
        decreases n - i,
    {
        lobby.game_state.players[i].player.health = FULL_HEALTH;
        i += 1;
    }
}

/// Seats the players of the lobby on the formation for their number, in
/// the order in which they joined. Fails, and changes nothing, where the
/// lobby holds more players than a formation seats.
pub fn update_initial_player_positions(lobby: &mut Lobby) -> (result: Result<(), String>)
    ensures
        result is Ok <==> old(lobby).game_state.players.len() <= MAX_PLAYERS_PER_LOBBY,
        result matches Err(message) ==> message@ == formation_error_message() && *final(lobby)
            == *old(lobby),
        result is Ok ==> players_seated(
            old(lobby).game_state.players@,
            final(lobby).game_state.players@,
        ),
        final(lobby).game_state.entities == old(lobby).game_state.entities,
        final(lobby).round == old(lobby).round,
        final(lobby).tick == old(lobby).tick,
        final(lobby).tick_length_milli_seconds == old(lobby).tick_length_milli_seconds,
        final(lobby).id == old(lobby).id,
        final(lobby).clients == old(lobby).clients,
        final(lobby).client_messages == old(lobby).client_messages,
        final(lobby).status == old(lobby).status,
{
    let player_count: usize = lobby.game_state.players.len();
    let starting_positions = match starting_formation(player_count) {
        Some(places) => places,
        None => {
            return Err(
                String::from_str(
                    "Cannot add player, because no starting formation is maintained for the player count.",
                ),
            );
        },
    };
    let ghost before = lobby.game_state.players@;
    let mut index: usize = 0;
    while index < player_count
        invariant
            index <= player_count,
            player_count == before.len(),
            lobby.game_state.players.len() == player_count,
            starting_positions@ == formation(player_count as int),
            starting_positions.len() == player_count,
            forall|j: int|
                0 <= j < index ==> {
                    &&& (#[trigger] lobby.game_state.players[j]).peer == before[j].peer
                    &&& player_seated(
                        before[j].player,
                        lobby.game_state.players[j].player,
                        formation(player_count as int)[j],
                    )
                },
            forall|j: int| index <= j < player_count ==> lobby.game_state.players[j] == before[j],
            lobby.game_state.entities == old(lobby).game_state.entities,
            lobby.round == old(lobby).round,
            lobby.tick == old(lobby).tick,
            lobby.tick_length_milli_seconds == old(lobby).tick_length_milli_seconds,
            lobby.id == old(lobby).id,
            lobby.clients == old(lobby).clients,
            lobby.client_messages == old(lobby).client_messages,
            lobby.status == old(lobby).status,
        decreases player_count - index,
    {
        let place = starting_positions[index];
        let player = &mut lobby.game_state.players[index].player;
        player.x = place.0;
        player.y = place.1;
        player.rotation = place.2;
        index += 1;
    }
    Ok(())
}

/// The number of players of the lobby with health left.
pub fn get_amount_of_players_alive(lobby: &mut Lobby) -> (alive: usize)
    ensures
        alive == count_alive(old(lobby).game_state.players@),
        *final(lobby) == *old(lobby),
{
    let mut alive: usize = 0;
    let mut i: usize = 0;
    while i < lobby.game_state.players.len()
        invariant
            i <= lobby.game_state.players.len(),
            *lobby == *old(lobby),
            alive == count_alive(lobby.game_state.players@.take(i as int)),
            alive <= i,
        decreases lobby.game_state.players.len() - i,
    {
        proof {
            let s = lobby.game_state.players@;
            assert(s.take(i + 1).drop_last() =~= s.take(i as int));
        }
        if lobby.game_state.players[i].player.health > 0 {
            alive += 1;
        }
        i += 1;
    }
    proof {
        let s = lobby.game_state.players@;
        assert(s.take(s.len() as int) =~= s);
    }
    alive
}

} // verus!
