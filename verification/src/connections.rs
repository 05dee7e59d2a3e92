//! Admission of a connection: reading the lobby, the kind of client and
//! the username from the request, and deciding whether the lobby takes the
//! client in. Whatever is turned down comes with the reason to close the
//! connection with, and has changed nothing.

use crate::game::{connect_client, connect_result, ConnectOutcome};
use crate::ids::{fresh_uuid, parse_uuid, uuid_parse, uuid_text, uuid_to_string};
use crate::management_api::find_lobby;
use crate::models::{lobby_ids, Client, ClientType, Lobby, LobbyStatus, Server};
use crate::text::{
    concat2, concat3, find_char, find_char_from, find_last_char, find_last_char_before, piece,
    piece_is, text_is, to_chars,
};
use vstd::prelude::*;
use vstd::string::StringExecFns;

verus! {

/// What a request asks for: the lobby, by value and as the request spelled
/// it, and the client to take in.
#[derive(Debug)]
pub struct ConnectRequest {
    pub lobby_id: u128,
    pub lobby_id_text: String,
    pub client: Client,
}

/// A client that a lobby took in, and what the host does for it.
#[derive(Debug)]
pub struct Admission {
    pub lobby_id: u128,
    pub outcome: ConnectOutcome,
}

pub open spec fn missing_lobby_id_message() -> Seq<char> {
    "Could not find lobby id in path"@
}

pub open spec fn invalid_uuid_message(text: Seq<char>) -> Seq<char> {
    "'"@ + text + "' is not a valid UUID"@
}

pub open spec fn missing_client_type_message() -> Seq<char> {
    "Missing 'clientType' parameter in supplied query parameters"@
}

pub open spec fn invalid_client_type_message(text: Seq<char>) -> Seq<char> {
    text + " is not a valid client type"@
}

pub open spec fn missing_username_message() -> Seq<char> {
    "Player clients must supply a 'username' via the query parameter"@
}

pub open spec fn lobby_not_found_message(lobby_id: u128) -> Seq<char> {
    "Could not find lobby with id '"@ + uuid_text(lobby_id) + "'"@
}

pub open spec fn lobby_not_open_message(lobby_id_text: Seq<char>) -> Seq<char> {
    "Lobby with id '"@ + lobby_id_text + "' is not open for new connections"@
}

/// The target of a request line: what stands between its first blank and
/// the next one, or the end. A line without a blank has none.
pub open spec fn request_target(line: Seq<char>) -> Option<Seq<char>> {
    let first = find_char(line, ' ', 0);
    if first >= line.len() {
        None
    } else {
        Some(line.subrange(first + 1, find_char(line, ' ', first + 1)))
    }
}

/// The two parts of a lobby URL, `/lobby/<id>?<query>`: the id and the
/// query. Only the URL's first line counts. The id reaches up to the last
/// question mark of that line, the query from there to the line's end. A
/// URL that does not begin with `/lobby/`, or has no question mark behind
/// it, has no parts.
pub open spec fn lobby_url_parts(url: Seq<char>) -> Option<(Seq<char>, Seq<char>)> {
    if url.len() >= 7 && url.subrange(0, 7) == "/lobby/"@ {
        let line_end = find_char(url, '\n', 7);
        let mark = find_last_char(url, '?', line_end);
        if mark >= 7 {
            Some((url.subrange(7, mark), url.subrange(mark + 1, line_end)))
        } else {
            None
        }
    } else {
        None
    }
}

/// The value that one `key=value` pair gives `key`: what stands between
/// its first and its second `=`, or its end. A pair without `=`, or with
/// another key, gives none.
pub open spec fn pair_value(pair: Seq<char>, key: Seq<char>) -> Option<Seq<char>> {
    let eq = find_char(pair, '=', 0);
    if eq < pair.len() && pair.subrange(0, eq) == key {
        Some(pair.subrange(eq + 1, find_char(pair, '=', eq + 1)))
    } else {
        None
    }
}

/// The value that the query gives `key`, reading the query from `from`
/// on: the query is a row of pairs with `&` between them, and the last
/// pair that gives a value wins.
pub open spec fn query_value_from(query: Seq<char>, key: Seq<char>, from: int) -> Option<Seq<char>>
    decreases query.len() - from,
{
    if from < 0 || from > query.len() {
        None
    } else {
        let end = find_char(query, '&', from);
        let later = if from <= end < query.len() {
            query_value_from(query, key, end + 1)
        } else {
            None
        };
        match later {
            Some(value) => Some(value),
            None => pair_value(query.subrange(from, end), key),
        }
    }
}

/// The value that the query gives `key`.
pub open spec fn query_value(query: Seq<char>, key: Seq<char>) -> Option<Seq<char>> {
    query_value_from(query, key, 0)
}

/// What a client type is spelled like.
pub open spec fn client_type_of(text: Seq<char>) -> Option<ClientType> {
    if text == "PLAYER"@ {
        Some(ClientType::PLAYER)
    } else if text == "SPECTATOR"@ {
        Some(ClientType::SPECTATOR)
    } else {
        None
    }
}

/// What a lobby URL asks for: the lobby, the text that named it, the kind
/// of client and the username; or the reason why it asks for nothing.
pub open spec fn url_request(url: Seq<char>) -> Result<
    (u128, Seq<char>, ClientType, Seq<char>),
    Seq<char>,
> {
    match lobby_url_parts(url) {
        None => Err(missing_lobby_id_message()),
        Some((id_text, query)) => match uuid_parse(id_text) {
            None => Err(invalid_uuid_message(id_text)),
            Some(lobby_id) => match query_value(query, "clientType"@) {
                None => Err(missing_client_type_message()),
                Some(type_text) => match client_type_of(type_text) {
                    None => Err(invalid_client_type_message(type_text)),
                    Some(client_type) => {
                        let username = match query_value(query, "username"@) {
                            Some(name) => name,
                            None => Seq::<char>::empty(),
                        };
                        if client_type == ClientType::PLAYER && username.len() == 0 {
                            Err(missing_username_message())
                        } else {
                            Ok((lobby_id, id_text, client_type, username))
                        }
                    },
                },
            },
        },
    }
}

/// What a request line asks for. A line without a target asks for
/// nothing, as a target without a lobby id does.
pub open spec fn line_request(line: Seq<char>) -> Result<
    (u128, Seq<char>, ClientType, Seq<char>),
    Seq<char>,
> {
    match request_target(line) {
        None => Err(missing_lobby_id_message()),
        Some(url) => url_request(url),
    }
}

/// `result` says what `expected` says: the same reason, or a request for
/// the same lobby and client.
pub open spec fn request_matches(
    result: Result<ConnectRequest, String>,
    expected: Result<(u128, Seq<char>, ClientType, Seq<char>), Seq<char>>,
) -> bool {
    match result {
        Err(message) => expected == Err::<(u128, Seq<char>, ClientType, Seq<char>), Seq<char>>(
            message@,
        ),
        Ok(request) => expected == Ok::<(u128, Seq<char>, ClientType, Seq<char>), Seq<char>>(
            (
                request.lobby_id,
                request.lobby_id_text@,
                request.client.client_type,
                request.client.username@,
            ),
        ),
    }
}

impl ClientType {
    /// Reads a client type from its spelling.
    pub fn from_str(input: &str) -> (result: Result<ClientType, ()>)
        ensures
            match result {
                Ok(client_type) => client_type_of(input@) == Some(client_type),
                Err(_) => client_type_of(input@) is None,
            },
    {
        if text_is(input, "PLAYER") {
            Ok(ClientType::PLAYER)
        } else if text_is(input, "SPECTATOR") {
            Ok(ClientType::SPECTATOR)
        } else {
            Err(())
        }
    }
}

/// The target of a request line.
pub fn get_request_target(line: &str) -> (target: Option<String>)
    ensures
        match target {
            Some(url) => request_target(line@) == Some(url@),
            None => request_target(line@) is None,
        },
{
    let chars = to_chars(line);
    let first: usize = find_char_from(&chars, ' ', 0);
    if first >= chars.len() {
        return None;
    }
    let second: usize = find_char_from(&chars, ' ', first + 1);
    Some(piece(line, first + 1, second))
}

/// The id and the query of a lobby URL.
pub fn split_lobby_url(url: &str) -> (parts: Option<(String, String)>)
    ensures
        match parts {
            Some((id_text, query)) => lobby_url_parts(url@) == Some((id_text@, query@)),
            None => lobby_url_parts(url@) is None,
        },
{
    let chars = to_chars(url);
    let prefix = to_chars("/lobby/");
    proof {
        reveal_strlit("/lobby/");
    }
    if chars.len() < 7 || !piece_is(&chars, 0, 7, &prefix) {
        return None;
    }
    let line_end: usize = find_char_from(&chars, '\n', 7);
    match find_last_char_before(&chars, '?', line_end) {
        Some(mark) => {
            if mark >= 7 {
                Some((piece(url, 7, mark), piece(url, mark + 1, line_end)))
            } else {
                None
            }
        },
        None => None,
    }
}

/// The place of the value that one pair gives `key`, where the pair is
/// the piece of `chars` from `from` up to `end`.
fn pair_value_range(chars: &Vec<char>, from: usize, end: usize, key: &Vec<char>) -> (range: Option<
    (usize, usize),
>)
    requires
        from <= end <= chars.len(),
    ensures
        match range {
            Some((a, b)) => from <= a <= b <= end && pair_value(
                chars@.subrange(from as int, end as int),
                key@,
            ) == Some(chars@.subrange(a as int, b as int)),
            None => pair_value(chars@.subrange(from as int, end as int), key@) is None,
        },
{
    let ghost pair = chars@.subrange(from as int, end as int);
    let mut eq: usize = from;
    while eq < end && chars[eq] != '='
        invariant
            from <= eq <= end <= chars.len(),
            pair == chars@.subrange(from as int, end as int),
            find_char(pair, '=', 0) == find_char(pair, '=', eq - from),
        decreases end - eq,
    {
        eq += 1;
    }
    if eq >= end {
        return None;
    }
    assert(pair.subrange(0, eq - from) =~= chars@.subrange(from as int, eq as int));
    if !piece_is(chars, from, eq, key) {
        return None;
    }
    let mut second: usize = eq + 1;
    while second < end && chars[second] != '='
        invariant
            from <= eq < second <= end <= chars.len(),
            pair == chars@.subrange(from as int, end as int),
            find_char(pair, '=', eq + 1 - from) == find_char(pair, '=', second - from),
        decreases end - second,
    {
        second += 1;
    }
    assert(pair.subrange(eq + 1 - from, second - from) =~= chars@.subrange(
        eq + 1,
        second as int,
    ));
    Some((eq + 1, second))
}

/// The value that the query gives `key`.
pub fn query_param(query: &str, key: &str) -> (value: Option<String>)
    ensures
        match value {
            Some(text) => query_value(query@, key@) == Some(text@),
            None => query_value(query@, key@) is None,
        },
{
    let chars = to_chars(query);
    let key_chars = to_chars(key);
    let mut best: Option<(usize, usize)> = None;
    let mut from: usize = 0;
    let mut done: bool = false;
    while !done
        invariant
            from <= chars.len(),
            chars@ == query@,
            key_chars@ == key@,
            best matches Some((a, b)) ==> a <= b <= chars.len(),
            query_value(query@, key@) == (if done {
                match best {
                    Some((a, b)) => Some(chars@.subrange(a as int, b as int)),
                    None => None,
                }
            } else {
                match query_value_from(chars@, key@, from as int) {
                    Some(later) => Some(later),
                    None => match best {
                        Some((a, b)) => Some(chars@.subrange(a as int, b as int)),
                        None => None,
                    },
                }
            }),
        decreases chars.len() - from + if done { 0int } else { 1int },
    {
        let end: usize = find_char_from(&chars, '&', from);
        match pair_value_range(&chars, from, end, &key_chars) {
            Some(range) => {
                best = Some(range);
            },
            None => {},
        }
        if end < chars.len() {
            from = end + 1;
        } else {
            done = true;
        }
    }
    match best {
        Some((a, b)) => Some(piece(query, a, b)),
        None => None,
    }
}

/// Reads from a lobby URL what it asks for.
pub fn parse_connect_url(url: &str) -> (result: Result<ConnectRequest, String>)
    ensures
        request_matches(result, url_request(url@)),
{
    let (lobby_id_str, query_string) = match split_lobby_url(url) {
        Some(parts) => parts,
        None => {
            return Err(String::from_str("Could not find lobby id in path"));
        },
    };
    let lobby_uuid: u128 = match parse_uuid(lobby_id_str.as_str()) {
        Some(id) => id,
        None => {
            return Err(concat3("'", lobby_id_str.as_str(), "' is not a valid UUID"));
        },
    };
    let client_type_str = match query_param(query_string.as_str(), "clientType") {
        Some(text) => text,
        None => {
            return Err(
                String::from_str("Missing 'clientType' parameter in supplied query parameters"),
            );
        },
    };
    let client_type = match ClientType::from_str(client_type_str.as_str()) {
        Ok(client_type) => client_type,
        Err(_) => {
            return Err(concat2(client_type_str.as_str(), " is not a valid client type"));
        },
    };
    let username: String = match query_param(query_string.as_str(), "username") {
        Some(name) => name,
        None => String::new(),
    };
    let nameless: bool = username.as_str().unicode_len() == 0;
    match client_type {
        ClientType::PLAYER => {
            if nameless {
                return Err(
                    String::from_str(
                        "Player clients must supply a 'username' via the query parameter",
                    ),
                );
            }
        },
        ClientType::SPECTATOR => {},
    }
    Ok(
        ConnectRequest {
            lobby_id: lobby_uuid,
            lobby_id_text: lobby_id_str,
            client: Client { client_type, username },
        },
    )
}

/// Reads from a request line what it asks for.
pub fn parse_connect_request(request_line: &str) -> (result: Result<ConnectRequest, String>)
    ensures
        request_matches(result, line_request(request_line@)),
{
    match get_request_target(request_line) {
        Some(url) => parse_connect_url(url.as_str()),
        None => Err(String::from_str("Could not find lobby id in path")),
    }
}

/// No lobby of the directory knows the peer `addr`, and every lobby has
/// room on its client table.
pub open spec fn peer_is_new(server: Server, addr: u64) -> bool {
    forall|i: int|
        0 <= i < server.lobbies.len() ==> !(#[trigger] server.lobbies[i]).has_client(addr)
            && server.lobbies[i].clients.len() < i32::MAX
}

/// Whether a lobby of status `status` is open to a client of kind
/// `client_type`: to a spectator always, to a player while it is pending.
pub open spec fn lobby_open_for(status: LobbyStatus, client_type: ClientType) -> bool {
    client_type == ClientType::SPECTATOR || status == LobbyStatus::PENDING
}

/// What `admit_client` hands back and leaves behind.
///
/// A request for a lobby that does not exist, or that is not open to the
/// client, is turned down with the reason and changes nothing. Any other
/// request is the lobby's to decide, and no other lobby changes.
pub open spec fn admit_result(
    before: Server,
    after: Server,
    request: ConnectRequest,
    addr: u64,
    player_id: u128,
    fresh_tick: u128,
    result: Result<Admission, String>,
) -> bool {
    if !before.has_lobby(request.lobby_id) {
        &&& result matches Err(message)
        &&& message@ == lobby_not_found_message(request.lobby_id)
        &&& after == before
    } else {
        let i = before.lobby_index(request.lobby_id);
        if !lobby_open_for(before.lobbies[i].status, request.client.client_type) {
            &&& result matches Err(message)
            &&& message@ == lobby_not_open_message(request.lobby_id_text@)
            &&& after == before
        } else {
            &&& after.lobbies.len() == before.lobbies.len()
            &&& forall|j: int|
                0 <= j < before.lobbies.len() && j != i ==> after.lobbies[j] == before.lobbies[j]
            &&& match result {
                Ok(admission) => {
                    &&& admission.lobby_id == request.lobby_id
                    &&& connect_result(
                        before.lobbies[i],
                        after.lobbies[i],
                        addr,
                        request.client,
                        player_id,
                        fresh_tick,
                        Ok(admission.outcome),
                    )
                },
                Err(message) => connect_result(
                    before.lobbies[i],
                    after.lobbies[i],
                    addr,
                    request.client,
                    player_id,
                    fresh_tick,
                    Err(message),
                ),
            }
        }
    }
}

/// Decides on a request of the peer `addr`, with `player_id` as the id of
/// its player and `fresh_tick` as the lobby's next tick if it joins as
/// one.
pub fn admit_client(
    server: &mut Server,
    request: ConnectRequest,
    addr: u64,
    player_id: u128,
    fresh_tick: u128,
) -> (result: Result<Admission, String>)
    requires
        old(server).wf(),
        peer_is_new(*old(server), addr),
    ensures
        final(server).wf(),
        admit_result(*old(server), *final(server), request, addr, player_id, fresh_tick, result),
{
    let ghost before = server.lobbies@;
    let i: usize = match find_lobby(server, request.lobby_id) {
        Some(i) => i,
        None => {
            let text = uuid_to_string(request.lobby_id);
            return Err(concat3("Could not find lobby with id '", text.as_str(), "'"));
        },
    };
    let open: bool = match request.client.client_type {
        ClientType::SPECTATOR => true,
        ClientType::PLAYER => match server.lobbies[i].status {
            LobbyStatus::PENDING => true,
            _ => false,
        },
    };
    if !open {
        return Err(
            concat3(
                "Lobby with id '",
                request.lobby_id_text.as_str(),
                "' is not open for new connections",
            ),
        );
    }
    let lobby_id: u128 = request.lobby_id;
    let connected = connect_client(
        &mut server.lobbies[i],
        addr,
        request.client,
        player_id,
        fresh_tick,
    );
    proof {
        assert(lobby_ids(server.lobbies@) =~= lobby_ids(before));
        assert forall|j: int| 0 <= j < server.lobbies.len() implies (
        #[trigger] server.lobbies[j]).wf() by {
        }
    }
    match connected {
        Ok(outcome) => Ok(Admission { lobby_id, outcome }),
        Err(message) => Err(message),
    }
}

/// What `accept_connection` hands back and leaves behind: the reason why
/// the request line asks for nothing, with nothing changed; or what
/// `admit_client` does with what it asks for.
pub open spec fn accept_result(
    before: Server,
    after: Server,
    line: Seq<char>,
    addr: u64,
    player_id: u128,
    fresh_tick: u128,
    result: Result<Admission, String>,
) -> bool {
    if line_request(line) is Err {
        &&& result matches Err(message)
        &&& message@ == line_request(line)->Err_0
        &&& after == before
    } else {
        exists|request: ConnectRequest| #[trigger]
            request_matches(Ok(request), line_request(line)) && admit_result(
                before,
                after,
                request,
                addr,
                player_id,
                fresh_tick,
                result,
            )
    }
}

/// Decides on a connection of the peer `addr` from its request line: reads
/// the request and, where it asks for a lobby, lets the lobby decide. The
/// id of a new player and the lobby's next tick are freshly drawn, so the
/// contract holds for some pair of them.
pub fn accept_connection(server: &mut Server, request_line: &str, addr: u64) -> (result: Result<
    Admission,
    String,
>)
    requires
        old(server).wf(),
        peer_is_new(*old(server), addr),
    ensures
        final(server).wf(),
        exists|player_id: u128, fresh_tick: u128| #[trigger]
            accept_result(
                *old(server),
                *final(server),
                request_line@,
                addr,
                player_id,
                fresh_tick,
                result,
            ),
{
    let request = match parse_connect_request(request_line) {
        Ok(request) => request,
        Err(message) => {
            proof {
                assert(accept_result(
                    *old(server),
                    *server,
                    request_line@,
                    addr,
                    0,
                    0,
                    Err::<Admission, String>(message),
                ));
            }
            return Err(message);
        },
    };
    let player_id: u128 = fresh_uuid();
    let fresh_tick: u128 = fresh_uuid();
    let result = admit_client(server, request, addr, player_id, fresh_tick);
    proof {
        assert(accept_result(
            *old(server),
            *server,
            request_line@,
            addr,
            player_id,
            fresh_tick,
            result,
        ));
    }
    result
}

} // verus!
