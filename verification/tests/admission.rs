use std::collections::HashMap;
use tank_arena::api_models::UpdateLobbyBody;
use tank_arena::connections::{
    accept_connection, admit_client, get_request_target, parse_connect_request, parse_connect_url,
    query_param, split_lobby_url, ConnectRequest,
};
use tank_arena::management_api::{create_lobby, get_update_lobby_reply, new_server};
use tank_arena::models::{Client, ClientType, LobbyStatus, Server};

const LOBBY: u128 = 0x9ec2a984_b5bf_4a13_89fd_53c0d9cafef6;
const LOBBY_TEXT: &str = "9ec2a984-b5bf-4a13-89fd-53c0d9cafef6";

fn server_with_lobby() -> Server {
    let mut server = new_server();
    create_lobby(&mut server, LOBBY, 1);
    server
}

fn url(client_type: &str, username: &str) -> String {
    format!("/lobby/{}?clientType={}&username={}", LOBBY_TEXT, client_type, username)
}

fn line(client_type: &str, username: &str) -> String {
    format!("GET {} HTTP/1.1", url(client_type, username))
}

fn reason(result: Result<ConnectRequest, String>) -> String {
    match result {
        Ok(_) => panic!("the request was read"),
        Err(message) => message,
    }
}

fn regex_parts(url: &str) -> Option<(String, String)> {
    let request_regex = regex::Regex::new(r"^\/lobby\/(.*)\?(.*)").unwrap();
    request_regex
        .captures(url)
        .map(|c| (c.get(1).unwrap().as_str().to_string(), c.get(2).unwrap().as_str().to_string()))
}

fn querify_value(query: &str, key: &str) -> Option<String> {
    let params = querystring::querify(query).into_iter().collect::<HashMap<&str, &str>>();
    params.get(key).map(|value| value.to_string())
}

#[test]
fn request_target_is_second_word() {
    assert_eq!(get_request_target("GET /lobby/x?y HTTP/1.1"), Some("/lobby/x?y".to_string()));
    assert_eq!(get_request_target("GET /lobby/x?y"), Some("/lobby/x?y".to_string()));
    assert_eq!(get_request_target("GET  /x"), Some("".to_string()));
    assert_eq!(get_request_target("GET "), Some("".to_string()));
    assert_eq!(get_request_target("GET"), None);
    assert_eq!(get_request_target(""), None);
}

#[test]
fn lobby_url_splits_at_last_question_mark() {
    assert_eq!(split_lobby_url("/lobby/abc?x=1"), Some(("abc".to_string(), "x=1".to_string())));
    assert_eq!(split_lobby_url("/lobby/a?b?c"), Some(("a?b".to_string(), "c".to_string())));
    assert_eq!(split_lobby_url("/lobby/?"), Some(("".to_string(), "".to_string())));
    assert_eq!(split_lobby_url("/lobby/abc"), None);
    assert_eq!(split_lobby_url("/lobbies/abc?x"), None);
    assert_eq!(split_lobby_url("lobby/abc?x"), None);
    assert_eq!(split_lobby_url("/lobby"), None);
    assert_eq!(split_lobby_url(""), None);
    assert_eq!(split_lobby_url("/lobby/a?b\nc?d"), Some(("a".to_string(), "b".to_string())));
    assert_eq!(split_lobby_url("/lobby/a\nb?c"), None);
}

#[test]
fn lobby_url_agrees_with_the_pattern() {
    let urls = [
        "/lobby/abc?x=1",
        "/lobby/a?b?c",
        "/lobby/?",
        "/lobby/??",
        "/lobby/abc",
        "/lobbies/abc?x",
        "/lobby",
        "/lobby/",
        "",
        "/lobby/a?b\nc?d",
        "/lobby/a\nb?c",
        "/lobby/a?\n",
        "/lobby/\u{e9}t\u{e9}?cl\u{e9}=\u{1f600}",
        "/lobby/a?b\rc",
        " /lobby/a?b",
        "/LOBBY/a?b",
        "/lobby/9ec2a984-b5bf-4a13-89fd-53c0d9cafef6?clientType=PLAYER&username=bob",
    ];
    for url in urls {
        assert_eq!(split_lobby_url(url), regex_parts(url), "url {:?}", url);
    }
}

#[test]
fn query_value_is_taken_from_last_pair() {
    assert_eq!(query_param("a=1&b=2", "a"), Some("1".to_string()));
    assert_eq!(query_param("a=1&b=2", "b"), Some("2".to_string()));
    assert_eq!(query_param("a=1&a=2", "a"), Some("2".to_string()));
    assert_eq!(query_param("a=1&a", "a"), Some("1".to_string()));
    assert_eq!(query_param("a=1=2", "a"), Some("1".to_string()));
    assert_eq!(query_param("a=", "a"), Some("".to_string()));
    assert_eq!(query_param("a", "a"), None);
    assert_eq!(query_param("", "a"), None);
    assert_eq!(query_param("=x", ""), Some("x".to_string()));
    assert_eq!(query_param("ab=1", "a"), None);
}

#[test]
fn query_value_agrees_with_querify() {
    let queries = [
        "foo=bar&baz=qux&",
        "a=b&b=c&something_else=another-thing&notright#&blank=&ignoreme!",
        "arbitrary string",
        "",
        "&",
        "&&a=1&&",
        "a=1&a=2&a=3",
        "a=1=2=3&b==",
        "=x&=y",
        "clientType=PLAYER&username=bob",
        "username=&clientType=SPECTATOR",
        "cl\u{e9}=\u{1f600}&a=\u{e9}",
    ];
    let keys = ["a", "b", "foo", "baz", "blank", "", "clientType", "username", "cl\u{e9}", "x"];
    for query in queries {
        for key in keys {
            assert_eq!(query_param(query, key), querify_value(query, key), "{:?} {:?}", query, key);
        }
    }
}

#[test]
fn client_type_from_str() {
    assert_eq!(ClientType::from_str("PLAYER"), Ok(ClientType::PLAYER));
    assert_eq!(ClientType::from_str("SPECTATOR"), Ok(ClientType::SPECTATOR));
    assert_eq!(ClientType::from_str("player"), Err(()));
    assert_eq!(ClientType::from_str(""), Err(()));
    assert_eq!(ClientType::from_str("PLAYERS"), Err(()));
}

#[test]
fn request_for_player_is_read() {
    let request = parse_connect_request(&line("PLAYER", "bob")).unwrap();
    assert_eq!(request.lobby_id, LOBBY);
    assert_eq!(request.lobby_id_text, LOBBY_TEXT);
    assert_eq!(request.client.client_type, ClientType::PLAYER);
    assert_eq!(request.client.username, "bob");
}

#[test]
fn request_for_spectator_needs_no_username() {
    let request =
        parse_connect_url(&format!("/lobby/{}?clientType=SPECTATOR", LOBBY_TEXT)).unwrap();
    assert_eq!(request.lobby_id, LOBBY);
    assert_eq!(request.client.client_type, ClientType::SPECTATOR);
    assert_eq!(request.client.username, "");
}

#[test]
fn uuid_is_read_in_other_spellings() {
    let simple = parse_connect_url("/lobby/9ec2a984b5bf4a1389fd53c0d9cafef6?clientType=SPECTATOR")
        .unwrap();
    assert_eq!(simple.lobby_id, LOBBY);
    assert_eq!(simple.lobby_id_text, "9ec2a984b5bf4a1389fd53c0d9cafef6");
    let upper = parse_connect_url("/lobby/9EC2A984-B5BF-4A13-89FD-53C0D9CAFEF6?clientType=SPECTATOR")
        .unwrap();
    assert_eq!(upper.lobby_id, LOBBY);
    let other = parse_connect_url("/lobby/00000000-0000-0000-0000-000000000001?clientType=SPECTATOR")
        .unwrap();
    assert_eq!(other.lobby_id, 1);
}

#[test]
fn reasons_for_requests_that_ask_for_nothing() {
    assert_eq!(reason(parse_connect_request("GET")), "Could not find lobby id in path");
    assert_eq!(reason(parse_connect_request("GET / HTTP/1.1")), "Could not find lobby id in path");
    assert_eq!(
        reason(parse_connect_url(&format!("/lobby/{}", LOBBY_TEXT))),
        "Could not find lobby id in path"
    );
    assert_eq!(
        reason(parse_connect_url("/lobby/not-a-uuid?clientType=PLAYER&username=bob")),
        "'not-a-uuid' is not a valid UUID"
    );
    assert_eq!(
        reason(parse_connect_url(&format!("/lobby/{}?username=bob", LOBBY_TEXT))),
        "Missing 'clientType' parameter in supplied query parameters"
    );
    assert_eq!(
        reason(parse_connect_url(&url("REFEREE", "bob"))),
        "REFEREE is not a valid client type"
    );
    assert_eq!(
        reason(parse_connect_url(&url("PLAYER", ""))),
        "Player clients must supply a 'username' via the query parameter"
    );
    assert_eq!(
        reason(parse_connect_url(&format!("/lobby/{}?clientType=PLAYER", LOBBY_TEXT))),
        "Player clients must supply a 'username' via the query parameter"
    );
}

#[test]
fn unknown_lobby_is_turned_down() {
    let mut server = server_with_lobby();
    let result = accept_connection(
        &mut server,
        "GET /lobby/00000000-0000-0000-0000-0000000000ff?clientType=SPECTATOR HTTP/1.1",
        1,
    );
    assert_eq!(
        result.err(),
        Some("Could not find lobby with id '00000000-0000-0000-0000-0000000000ff'".to_string())
    );
    assert!(server.lobbies[0].clients.is_empty());
}

#[test]
fn player_join_into_running_lobby_changes_nothing() {
    let mut server = server_with_lobby();
    assert!(accept_connection(&mut server, &line("PLAYER", "ann"), 1).is_ok());
    assert!(accept_connection(&mut server, &line("PLAYER", "bob"), 2).is_ok());
    get_update_lobby_reply(LOBBY, &mut server, UpdateLobbyBody { status: LobbyStatus::RUNNING });
    let before = format!("{:?}", server);

    let result = accept_connection(&mut server, &line("PLAYER", "eve"), 3);
    assert_eq!(
        result.err(),
        Some(format!("Lobby with id '{}' is not open for new connections", LOBBY_TEXT))
    );
    assert_eq!(format!("{:?}", server), before);

    // a spectator is still taken in
    let result = accept_connection(&mut server, &line("SPECTATOR", ""), 4);
    assert!(result.is_ok());
    assert_eq!(server.lobbies[0].clients.len(), 3);
    assert_eq!(server.lobbies[0].game_state.players.len(), 2);
}

#[test]
fn player_join_into_finished_lobby_is_turned_down_with_the_spelling_of_the_request() {
    let mut server = server_with_lobby();
    get_update_lobby_reply(LOBBY, &mut server, UpdateLobbyBody { status: LobbyStatus::FINISHED });
    let request = ConnectRequest {
        lobby_id: LOBBY,
        lobby_id_text: "9EC2A984-B5BF-4A13-89FD-53C0D9CAFEF6".to_string(),
        client: Client { client_type: ClientType::PLAYER, username: "bob".to_string() },
    };
    let result = admit_client(&mut server, request, 1, 7, 8);
    assert_eq!(
        result.err(),
        Some(
            "Lobby with id '9EC2A984-B5BF-4A13-89FD-53C0D9CAFEF6' is not open for new connections"
                .to_string()
        )
    );
    assert!(server.lobbies[0].clients.is_empty());
    assert_eq!(server.lobbies[0].tick, 1);
}

#[test]
fn eighth_player_is_turned_down() {
    let mut server = server_with_lobby();
    for peer in 1..=7u64 {
        let admission = accept_connection(&mut server, &line("PLAYER", "p"), peer).unwrap();
        assert_eq!(admission.lobby_id, LOBBY);
    }
    let before = format!("{:?}", server);
    let result = accept_connection(&mut server, &line("PLAYER", "late"), 8);
    assert_eq!(
        result.err(),
        Some("Could not get color for new player. Lobby already has 7 players.".to_string())
    );
    assert_eq!(format!("{:?}", server), before);
    assert_eq!(server.lobbies[0].game_state.players.len(), 7);
    assert_eq!(server.lobbies[0].clients.len(), 7);
}
