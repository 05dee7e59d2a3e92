use tank_arena::actions::{apply_client_message, find_player, handle_client_message};
use tank_arena::api_models::{ClientAction, ClientMessage};
use tank_arena::game::{apply_client_messages, connect_client};
use tank_arena::management_api::new_lobby;
use tank_arena::models::{
    Client, ClientType, Flight, GameState, Lobby, PendingInput, Projectile, COORD_SCALE,
};
use tank_arena::projectiles::{calculate_projectile_updates, contains_cell, is_in_field};

fn game_with_players(count: u64) -> GameState {
    let mut lobby = new_lobby(1, 100);
    for peer in 1..=count {
        let client = Client { client_type: ClientType::PLAYER, username: format!("p{}", peer) };
        connect_client(&mut lobby, peer, client, peer as u128, 100 + peer as u128).unwrap();
    }
    lobby.game_state
}

fn lobby_with_players(count: u64) -> Lobby {
    let mut lobby = new_lobby(1, 100);
    for peer in 1..=count {
        let client = Client { client_type: ClientType::PLAYER, username: format!("p{}", peer) };
        connect_client(&mut lobby, peer, client, peer as u128, 100 + peer as u128).unwrap();
    }
    lobby
}

fn act(game: &mut GameState, peer: u64, action: ClientAction, degrees: Option<i32>) {
    apply_client_message(ClientMessage { tick: 0, action, degrees }, peer, game, 4242);
}

fn place(game: &GameState, index: usize) -> (i32, i32) {
    (game.players[index].player.x, game.players[index].player.y)
}

fn projectile(x: i64, y: i64, source: u64) -> Projectile {
    Projectile {
        id: 1,
        previous_x: x,
        previous_y: y,
        x,
        y,
        travel_distance: 6 * COORD_SCALE,
        direction: 90,
        source,
    }
}

fn flight(cells: &[(i32, i32)], end_x: i64, end_y: i64) -> Flight {
    Flight { cells: cells.to_vec(), end_x, end_y }
}

#[test]
fn moves_change_one_coordinate_by_one() {
    let mut game = game_with_players(1);
    assert_eq!(place(&game, 0), (14, 14));
    act(&mut game, 1, ClientAction::UP, None);
    assert_eq!(place(&game, 0), (14, 15));
    act(&mut game, 1, ClientAction::RIGHT, None);
    assert_eq!(place(&game, 0), (15, 15));
    act(&mut game, 1, ClientAction::DOWN, None);
    assert_eq!(place(&game, 0), (15, 14));
    act(&mut game, 1, ClientAction::LEFT, None);
    assert_eq!(place(&game, 0), (14, 14));
    assert!(game.players[0].player.last_action_success);
    assert_eq!(game.players[0].player.error_message, "");
    assert_eq!(game.players[0].player.rotation, 0);
}

#[test]
fn up_then_down_and_left_then_right_cancel() {
    for (first, second) in [
        (ClientAction::UP, ClientAction::DOWN),
        (ClientAction::DOWN, ClientAction::UP),
        (ClientAction::LEFT, ClientAction::RIGHT),
        (ClientAction::RIGHT, ClientAction::LEFT),
    ] {
        let mut game = game_with_players(2);
        let before = place(&game, 1);
        act(&mut game, 2, first, None);
        assert!(game.players[1].player.last_action_success);
        assert_ne!(place(&game, 1), before);
        act(&mut game, 2, second, None);
        assert!(game.players[1].player.last_action_success);
        assert_eq!(place(&game, 1), before);
    }
}

#[test]
fn moves_fail_at_the_border() {
    let cases = [
        (ClientAction::UP, (3, 29), "Cannot move UP, because player is at border of field"),
        (ClientAction::DOWN, (3, 0), "Cannot move DOWN, because player is at border of field"),
        (ClientAction::RIGHT, (29, 3), "Cannot move RIGHT, because player is at border of field"),
        (ClientAction::LEFT, (0, 3), "Cannot move LEFT, because player is at border of field"),
    ];
    for (action, at, message) in cases {
        let mut game = game_with_players(1);
        game.players[0].player.x = at.0;
        game.players[0].player.y = at.1;
        act(&mut game, 1, action, None);
        assert_eq!(place(&game, 0), at);
        assert!(!game.players[0].player.last_action_success);
        assert_eq!(game.players[0].player.error_message, message);
    }
}

#[test]
fn up_succeeds_next_to_the_border() {
    let mut game = game_with_players(1);
    game.players[0].player.y = 28;
    act(&mut game, 1, ClientAction::UP, None);
    assert_eq!(place(&game, 0), (14, 29));
    assert!(game.players[0].player.last_action_success);
}

#[test]
fn turn_takes_angles_from_0_to_360() {
    for degrees in [0, 1, 90, 359, 360] {
        let mut game = game_with_players(1);
        act(&mut game, 1, ClientAction::TURN, Some(degrees));
        assert!(game.players[0].player.last_action_success);
        assert_eq!(game.players[0].player.error_message, "");
        assert_eq!(game.players[0].player.rotation, degrees);
        assert_eq!(place(&game, 0), (14, 14));
    }
    for degrees in [-1, 361, i32::MIN, i32::MAX] {
        let mut game = game_with_players(2);
        act(&mut game, 2, ClientAction::TURN, Some(degrees));
        assert!(!game.players[1].player.last_action_success);
        assert_eq!(
            game.players[1].player.error_message,
            "Cannot TURN, because 'degrees' is not within range (0 - 360)"
        );
        assert_eq!(game.players[1].player.rotation, 90);
    }
}

#[test]
fn turn_without_degrees_fails() {
    let mut game = game_with_players(1);
    act(&mut game, 1, ClientAction::TURN, None);
    assert!(!game.players[0].player.last_action_success);
    assert_eq!(
        game.players[0].player.error_message,
        "Cannot TURN, because no 'degrees' property was supplied"
    );
    assert_eq!(game.players[0].player.rotation, 0);
}

#[test]
fn degrees_are_ignored_by_other_actions() {
    let mut game = game_with_players(1);
    act(&mut game, 1, ClientAction::UP, Some(1000));
    assert!(game.players[0].player.last_action_success);
    assert_eq!(place(&game, 0), (14, 15));
    assert_eq!(game.players[0].player.rotation, 0);
}

#[test]
fn shot_appends_a_projectile_on_the_players_cell() {
    let mut game = game_with_players(2);
    game.entities.push(projectile(1, 2, 1));
    act(&mut game, 2, ClientAction::SHOOT, None);
    assert!(game.players[1].player.last_action_success);
    assert_eq!(game.entities.len(), 2);
    assert_eq!(game.entities[0], projectile(1, 2, 1));
    assert_eq!(
        game.entities[1],
        Projectile {
            id: 4242,
            previous_x: 24 * COORD_SCALE,
            previous_y: 14 * COORD_SCALE,
            x: 24 * COORD_SCALE,
            y: 14 * COORD_SCALE,
            travel_distance: 6_000_000,
            direction: 90,
            source: 2,
        }
    );
    assert_eq!(place(&game, 1), (24, 14));
}

#[test]
fn handle_client_message_draws_an_id_for_a_shot() {
    let mut game = game_with_players(1);
    let shot = ClientMessage { tick: 0, action: ClientAction::SHOOT, degrees: None };
    handle_client_message(shot, 1, &mut game);
    handle_client_message(shot, 1, &mut game);
    assert_eq!(game.entities.len(), 2);
    assert_ne!(game.entities[0].id, game.entities[1].id);
    assert_eq!(game.entities[0].source, 1);
    let up = ClientMessage { tick: 0, action: ClientAction::UP, degrees: None };
    handle_client_message(up, 1, &mut game);
    assert_eq!(game.entities.len(), 2);
    assert_eq!(place(&game, 0), (14, 15));
}

#[test]
fn dead_player_does_nothing() {
    for action in [
        ClientAction::SHOOT,
        ClientAction::TURN,
        ClientAction::UP,
        ClientAction::DOWN,
        ClientAction::LEFT,
        ClientAction::RIGHT,
    ] {
        let mut game = game_with_players(1);
        game.players[0].player.health = 0;
        act(&mut game, 1, action, Some(45));
        assert!(!game.players[0].player.last_action_success);
        assert_eq!(
            game.players[0].player.error_message,
            "Message was not processed, because player has no more health left"
        );
        assert_eq!(place(&game, 0), (14, 14));
        assert_eq!(game.players[0].player.rotation, 0);
        assert!(game.entities.is_empty());
    }
}

#[test]
fn action_clears_the_mark_of_the_last_one() {
    let mut game = game_with_players(1);
    act(&mut game, 1, ClientAction::TURN, None);
    assert!(!game.players[0].player.last_action_success);
    act(&mut game, 1, ClientAction::UP, None);
    assert!(game.players[0].player.last_action_success);
    assert_eq!(game.players[0].player.error_message, "");
}

#[test]
fn find_player_by_peer() {
    let game = game_with_players(3);
    assert_eq!(find_player(&game, 1), Some(0));
    assert_eq!(find_player(&game, 3), Some(2));
    assert_eq!(find_player(&game, 4), None);
}

#[test]
fn inputs_are_applied_and_marks_wiped() {
    let mut lobby = lobby_with_players(3);
    lobby.game_state.players[2].player.last_action_success = false;
    lobby.game_state.players[2].player.error_message = "old".to_string();
    lobby.game_state.players[1].player.last_action_success = false;
    lobby.client_messages.push(PendingInput {
        peer: 2,
        message: ClientMessage { tick: lobby.tick, action: ClientAction::SHOOT, degrees: None },
    });
    lobby.client_messages.push(PendingInput {
        peer: 1,
        message: ClientMessage { tick: lobby.tick, action: ClientAction::TURN, degrees: Some(400) },
    });
    apply_client_messages(&mut lobby, &vec![11, 12]);
    assert!(lobby.client_messages.is_empty());
    let players = &lobby.game_state.players;
    assert!(!players[0].player.last_action_success);
    assert_eq!(
        players[0].player.error_message,
        "Cannot TURN, because 'degrees' is not within range (0 - 360)"
    );
    assert!(players[1].player.last_action_success);
    assert!(players[2].player.last_action_success);
    assert_eq!(players[2].player.error_message, "");
    assert_eq!(lobby.game_state.entities.len(), 1);
    assert_eq!(lobby.game_state.entities[0].id, 11);
    assert_eq!(lobby.game_state.entities[0].source, 2);
    assert_eq!(lobby.game_state.entities[0].direction, players[1].player.rotation);
}

#[test]
fn field_border_is_kept() {
    let edge = 30 * COORD_SCALE;
    assert!(is_in_field(&projectile(0, 0, 1)));
    assert!(is_in_field(&projectile(edge, edge, 1)));
    assert!(!is_in_field(&projectile(edge + 1, 0, 1)));
    assert!(!is_in_field(&projectile(0, edge + 1, 1)));
    assert!(!is_in_field(&projectile(-1, 0, 1)));
    assert!(!is_in_field(&projectile(0, -1, 1)));
}

#[test]
fn cells_are_found() {
    let cells = vec![(1, 2), (3, 4)];
    assert!(contains_cell(&cells, 1, 2));
    assert!(contains_cell(&cells, 3, 4));
    assert!(!contains_cell(&cells, 1, 4));
    assert!(!contains_cell(&Vec::new(), 0, 0));
}

#[test]
fn projectiles_outside_the_field_are_dropped() {
    let mut game = game_with_players(2);
    let edge = 30 * COORD_SCALE;
    game.entities.push(projectile(-1, 5, 1));
    game.entities.push(projectile(edge, 5 * COORD_SCALE, 1));
    game.entities.push(projectile(5, edge + 1, 1));
    game.entities.push(projectile(3 * COORD_SCALE, 3 * COORD_SCALE, 2));
    game.entities[1].id = 21;
    game.entities[3].id = 23;
    let flights = vec![
        flight(&[(5, 14), (24, 14)], 0, 0),
        flight(&[], edge + 6 * COORD_SCALE, 5 * COORD_SCALE),
        flight(&[(5, 14), (24, 14)], 0, 0),
        flight(&[], 9 * COORD_SCALE, 3 * COORD_SCALE),
    ];
    calculate_projectile_updates(&mut game, &flights);
    assert_eq!(game.entities.len(), 2);
    assert_eq!(game.entities[0].id, 21);
    assert_eq!(game.entities[0].previous_x, edge);
    assert_eq!(game.entities[0].x, edge + 6 * COORD_SCALE);
    assert_eq!(game.entities[1].id, 23);
    assert_eq!((game.entities[1].previous_x, game.entities[1].previous_y), (3 * COORD_SCALE, 3 * COORD_SCALE));
    assert_eq!((game.entities[1].x, game.entities[1].y), (9 * COORD_SCALE, 3 * COORD_SCALE));
    assert_eq!(game.entities[1].direction, 90);
    assert_eq!(game.entities[1].source, 2);
    // the flights of dropped projectiles hit nobody
    assert_eq!(game.players[0].player.health, 100);
    assert_eq!(game.players[1].player.health, 100);
}

#[test]
fn hits_take_twenty_and_spare_the_shooter() {
    let mut game = game_with_players(3);
    // players stand on (5,5), (24,5), (14,24)
    game.entities.push(projectile(0, 0, 1));
    game.entities.push(projectile(0, 0, 2));
    game.entities.push(projectile(0, 0, 3));
    let all = [(5, 5), (24, 5), (14, 24)];
    let flights = vec![flight(&all, 1, 1), flight(&all, 2, 2), flight(&[(5, 5)], 3, 3)];
    calculate_projectile_updates(&mut game, &flights);
    assert_eq!(game.players[0].player.health, 100 - 2 * 20);
    assert_eq!(game.players[1].player.health, 100 - 20);
    assert_eq!(game.players[2].player.health, 100 - 2 * 20);
    assert_eq!(place(&game, 0), (5, 5));
    assert_eq!(game.entities.len(), 3);
}

#[test]
fn health_does_not_fall_below_nothing() {
    let mut game = game_with_players(2);
    game.players[1].player.health = 30;
    for _ in 0..3 {
        game.entities.push(projectile(0, 0, 1));
    }
    let flights =
        vec![flight(&[(24, 14)], 0, 0), flight(&[(24, 14)], 0, 0), flight(&[(24, 14)], 0, 0)];
    calculate_projectile_updates(&mut game, &flights);
    assert_eq!(game.players[1].player.health, 0);
    assert_eq!(game.players[0].player.health, 100);
}
