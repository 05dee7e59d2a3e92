use tank_arena::api_models::{ClientAction, ClientMessage, UpdateLobbyBody};
use tank_arena::client_handling::{
    check_all_clients_responded, find_client, find_input, insert_input, is_player_client,
    process_message_of_client, Frame, FrameOutcome, InputOutcome,
};
use tank_arena::game::{connect_client, start_lobby_update, UpdateStart};
use tank_arena::management_api::{
    create_lobby, find_lobby, get_create_lobby_reply, get_lobbies_list_reply,
    get_update_lobby_reply, new_lobby, new_server, set_lobby_status, StatusChange,
};
use tank_arena::models::{Client, ClientType, Lobby, LobbyStatus};

fn client(client_type: ClientType, name: &str) -> Client {
    Client { client_type, username: name.to_string() }
}

fn running_lobby() -> Lobby {
    let mut lobby = new_lobby(1, 100);
    connect_client(&mut lobby, 1, client(ClientType::PLAYER, "ann"), 11, 101).unwrap();
    connect_client(&mut lobby, 2, client(ClientType::PLAYER, "bob"), 12, 102).unwrap();
    connect_client(&mut lobby, 50, client(ClientType::SPECTATOR, ""), 0, 0).unwrap();
    assert_eq!(set_lobby_status(&mut lobby, LobbyStatus::RUNNING), StatusChange::Accepted);
    lobby
}

fn input(tick: u128, action: ClientAction) -> ClientMessage {
    ClientMessage { tick, action, degrees: None }
}

fn status(status: LobbyStatus) -> UpdateLobbyBody {
    UpdateLobbyBody { status }
}

#[test]
fn input_is_accepted_once_per_tick() {
    let mut lobby = running_lobby();
    let tick = lobby.tick;
    assert_eq!(insert_input(&mut lobby, 1, input(tick, ClientAction::UP)), InputOutcome::Accepted);
    assert_eq!(lobby.client_messages.len(), 1);
    assert_eq!(lobby.client_messages[0].peer, 1);
    assert_eq!(lobby.client_messages[0].message, input(tick, ClientAction::UP));
    assert_eq!(
        insert_input(&mut lobby, 1, input(tick, ClientAction::DOWN)),
        InputOutcome::DuplicateThisTick
    );
    assert_eq!(
        insert_input(&mut lobby, 1, input(tick + 1, ClientAction::DOWN)),
        InputOutcome::DuplicateThisTick
    );
    assert_eq!(lobby.client_messages.len(), 1);
    assert_eq!(find_input(&lobby, 1), Some(0));
    assert_eq!(find_input(&lobby, 2), None);
}

#[test]
fn input_is_turned_down_with_its_reason() {
    let mut lobby = running_lobby();
    let tick = lobby.tick;
    assert_eq!(
        insert_input(&mut lobby, 2, input(tick + 1, ClientAction::UP)),
        InputOutcome::StaleTick
    );
    assert_eq!(insert_input(&mut lobby, 50, input(tick, ClientAction::UP)), InputOutcome::NotAPlayer);
    assert_eq!(insert_input(&mut lobby, 77, input(tick, ClientAction::UP)), InputOutcome::NotAPlayer);
    assert!(lobby.client_messages.is_empty());

    let mut pending = new_lobby(1, 100);
    connect_client(&mut pending, 1, client(ClientType::PLAYER, "ann"), 11, 101).unwrap();
    assert_eq!(
        insert_input(&mut pending, 1, input(101, ClientAction::UP)),
        InputOutcome::NotRunning
    );
    assert!(pending.client_messages.is_empty());
}

#[test]
fn frames_are_sorted() {
    let mut lobby = running_lobby();
    let tick = lobby.tick;
    assert_eq!(process_message_of_client(&mut lobby, 1, Frame::Close), FrameOutcome::Closed);
    assert_eq!(process_message_of_client(&mut lobby, 1, Frame::Malformed), FrameOutcome::Malformed);
    assert_eq!(
        process_message_of_client(&mut lobby, 50, Frame::Malformed),
        FrameOutcome::Input(InputOutcome::NotAPlayer)
    );
    assert_eq!(
        process_message_of_client(&mut lobby, 50, Frame::Message(input(tick, ClientAction::UP))),
        FrameOutcome::Input(InputOutcome::NotAPlayer)
    );
    assert_eq!(
        process_message_of_client(&mut lobby, 1, Frame::Message(input(tick + 1, ClientAction::UP))),
        FrameOutcome::Input(InputOutcome::StaleTick)
    );
    assert!(lobby.client_messages.is_empty());
    assert_eq!(
        process_message_of_client(&mut lobby, 1, Frame::Message(input(tick, ClientAction::UP))),
        FrameOutcome::Input(InputOutcome::Accepted)
    );

    lobby.status = LobbyStatus::FINISHED;
    assert_eq!(
        process_message_of_client(&mut lobby, 2, Frame::Close),
        FrameOutcome::Input(InputOutcome::NotRunning)
    );
    assert_eq!(
        process_message_of_client(&mut lobby, 2, Frame::Message(input(tick, ClientAction::UP))),
        FrameOutcome::Input(InputOutcome::NotRunning)
    );
}

#[test]
fn all_players_must_answer_and_spectators_do_not_count() {
    let mut lobby = running_lobby();
    let tick = lobby.tick;
    assert_eq!(check_all_clients_responded(&mut lobby), None);
    insert_input(&mut lobby, 2, input(tick, ClientAction::UP));
    assert_eq!(check_all_clients_responded(&mut lobby), None);
    insert_input(&mut lobby, 1, input(tick, ClientAction::UP));
    assert_eq!(check_all_clients_responded(&mut lobby), Some(tick));

    let mut empty = new_lobby(3, 33);
    assert_eq!(check_all_clients_responded(&mut empty), Some(33));
    connect_client(&mut empty, 50, client(ClientType::SPECTATOR, ""), 0, 0).unwrap();
    assert_eq!(check_all_clients_responded(&mut empty), Some(33));
}

#[test]
fn clients_are_found_by_peer() {
    let lobby = running_lobby();
    assert_eq!(find_client(&lobby, 1), Some(0));
    assert_eq!(find_client(&lobby, 50), Some(2));
    assert_eq!(find_client(&lobby, 3), None);
    assert!(is_player_client(&lobby, 2));
    assert!(!is_player_client(&lobby, 50));
    assert!(!is_player_client(&lobby, 3));
}

#[test]
fn update_does_not_start_for_stale_tick_or_idle_lobby() {
    let mut lobby = running_lobby();
    let tick = lobby.tick;
    let before = format!("{:?}", lobby);
    assert_eq!(start_lobby_update(tick + 1, &mut lobby), UpdateStart::StaleTick);
    assert_eq!(format!("{:?}", lobby), before);

    let mut pending = new_lobby(1, 100);
    assert_eq!(start_lobby_update(100, &mut pending), UpdateStart::NotRunning);
    assert_eq!(start_lobby_update(101, &mut pending), UpdateStart::StaleTick);
    assert_eq!(pending.round, 0);
}

#[test]
fn lobbies_are_created_and_listed() {
    let mut server = new_server();
    assert!(get_lobbies_list_reply(&server).lobbies.is_empty());
    let first = get_create_lobby_reply(&mut server).id;
    let second = get_create_lobby_reply(&mut server).id;
    assert_ne!(first, second);
    assert_ne!(server.lobbies[0].tick, server.lobbies[1].tick);
    assert_eq!(find_lobby(&server, first), Some(0));
    assert_eq!(find_lobby(&server, second), Some(1));
    assert_eq!(find_lobby(&server, 0), None);

    connect_client(&mut server.lobbies[1], 1, client(ClientType::PLAYER, "ann"), 11, 101).unwrap();
    connect_client(&mut server.lobbies[1], 50, client(ClientType::SPECTATOR, "s"), 0, 0).unwrap();
    let list = get_lobbies_list_reply(&server);
    assert_eq!(list.lobbies.len(), 2);
    assert_eq!(list.lobbies[0].id, first);
    assert_eq!(list.lobbies[0].status, LobbyStatus::PENDING);
    assert!(list.lobbies[0].clients.is_empty());
    assert_eq!(list.lobbies[0].spectators, 0);
    assert_eq!(list.lobbies[1].id, second);
    assert_eq!(list.lobbies[1].clients.len(), 2);
    assert_eq!(list.lobbies[1].clients[0].client_type, ClientType::PLAYER);
    assert_eq!(list.lobbies[1].clients[0].username, "ann");
    assert_eq!(list.lobbies[1].clients[1].client_type, ClientType::SPECTATOR);
    assert_eq!(list.lobbies[1].spectators, 1);
}

#[test]
fn lobby_with_a_taken_id_gives_way() {
    let mut server = new_server();
    create_lobby(&mut server, 5, 50);
    create_lobby(&mut server, 6, 60);
    connect_client(&mut server.lobbies[0], 1, client(ClientType::PLAYER, "ann"), 11, 51).unwrap();
    let reply = create_lobby(&mut server, 5, 70);
    assert_eq!(reply.id, 5);
    assert_eq!(server.lobbies.len(), 2);
    assert_eq!(server.lobbies[0].id, 5);
    assert_eq!(server.lobbies[0].tick, 70);
    assert!(server.lobbies[0].clients.is_empty());
    assert_eq!(server.lobbies[1].id, 6);
}

#[test]
fn missing_lobby_is_not_found() {
    let mut server = new_server();
    create_lobby(&mut server, 5, 50);
    let reply = get_update_lobby_reply(
        0x9ec2a984_b5bf_4a13_89fd_53c0d9cafef6,
        &mut server,
        status(LobbyStatus::RUNNING),
    );
    assert_eq!(reply.status_code, 404);
    assert_eq!(reply.body, "Lobby with id '9ec2a984-b5bf-4a13-89fd-53c0d9cafef6' does not exist");
    assert_eq!(reply.start, None);
    let reply = get_update_lobby_reply(0xABCDEF, &mut server, status(LobbyStatus::RUNNING));
    assert_eq!(reply.body, "Lobby with id '00000000-0000-0000-0000-000000abcdef' does not exist");
    assert_eq!(server.lobbies[0].status, LobbyStatus::PENDING);
}

#[test]
fn pending_lobby_takes_any_status() {
    let mut server = new_server();
    create_lobby(&mut server, 5, 50);
    create_lobby(&mut server, 6, 60);
    create_lobby(&mut server, 7, 70);
    let reply = get_update_lobby_reply(5, &mut server, status(LobbyStatus::PENDING));
    assert_eq!((reply.status_code, reply.body.as_str(), reply.start), (200, "", None));
    assert_eq!(server.lobbies[0].status, LobbyStatus::PENDING);
    let reply = get_update_lobby_reply(6, &mut server, status(LobbyStatus::FINISHED));
    assert_eq!((reply.status_code, reply.body.as_str(), reply.start), (200, "", None));
    assert_eq!(server.lobbies[1].status, LobbyStatus::FINISHED);
    let reply = get_update_lobby_reply(7, &mut server, status(LobbyStatus::RUNNING));
    assert_eq!((reply.status_code, reply.body.as_str(), reply.start), (200, "", Some(70)));
    assert_eq!(server.lobbies[2].status, LobbyStatus::RUNNING);
    assert_eq!(server.lobbies[0].status, LobbyStatus::PENDING);
}

#[test]
fn running_lobby_rejects_every_request() {
    let mut server = new_server();
    create_lobby(&mut server, 5, 50);
    get_update_lobby_reply(5, &mut server, status(LobbyStatus::RUNNING));
    for requested in [LobbyStatus::PENDING, LobbyStatus::RUNNING, LobbyStatus::FINISHED] {
        let reply = get_update_lobby_reply(5, &mut server, status(requested));
        assert_eq!(reply.status_code, 422);
        assert_eq!(reply.body, "Lobby status cannot be updated while lobby is running");
        assert_eq!(reply.start, None);
        assert_eq!(server.lobbies[0].status, LobbyStatus::RUNNING);
    }
}

#[test]
fn finished_lobby_stays_finished() {
    let mut lobby = new_lobby(1, 100);
    assert_eq!(set_lobby_status(&mut lobby, LobbyStatus::FINISHED), StatusChange::Accepted);
    assert_eq!(set_lobby_status(&mut lobby, LobbyStatus::RUNNING), StatusChange::RejectedFinished);
    assert_eq!(set_lobby_status(&mut lobby, LobbyStatus::PENDING), StatusChange::RejectedFinished);
    assert_eq!(set_lobby_status(&mut lobby, LobbyStatus::FINISHED), StatusChange::Accepted);
    assert_eq!(lobby.status, LobbyStatus::FINISHED);

    let mut server = new_server();
    create_lobby(&mut server, 5, 50);
    get_update_lobby_reply(5, &mut server, status(LobbyStatus::FINISHED));
    let reply = get_update_lobby_reply(5, &mut server, status(LobbyStatus::RUNNING));
    assert_eq!(reply.status_code, 422);
    assert_eq!(reply.body, "Lobby status cannot be updated after lobby is finished");
    assert_eq!(reply.start, None);
    assert_eq!(server.lobbies[0].status, LobbyStatus::FINISHED);
}

#[test]
fn start_of_game_seats_and_heals() {
    let mut lobby = new_lobby(1, 100);
    connect_client(&mut lobby, 1, client(ClientType::PLAYER, "ann"), 11, 101).unwrap();
    connect_client(&mut lobby, 2, client(ClientType::PLAYER, "bob"), 12, 102).unwrap();
    lobby.game_state.players[0].player.health = 40;
    lobby.game_state.players[1].player.x = 9;
    assert_eq!(set_lobby_status(&mut lobby, LobbyStatus::RUNNING), StatusChange::Accepted);
    assert_eq!(lobby.status, LobbyStatus::RUNNING);
    assert_eq!(lobby.round, 0);
    assert_eq!(lobby.tick, 102);
    assert_eq!(lobby.game_state.players[0].player.health, 100);
    assert_eq!(lobby.game_state.players[1].player.x, 24);
}
