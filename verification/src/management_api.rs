//! The control plane: creating lobbies, listing them and changing their
//! status. Each operation works on the directory of lobbies and hands back
//! the reply; the host puts it on the wire.

use crate::api_models::{LobbyCreateResponse, LobbyOut, ServerOut, UpdateLobbyBody};
use crate::game::{game_started, start_game_for_lobby};
use crate::ids::{fresh_uuid, uuid_text, uuid_to_string};
use crate::models::{
    count_spectators, lobby_ids, Client, ClientEntry, GameState, Lobby, LobbyStatus, PendingInput,
    PlayerEntry, Projectile, Server, TICK_LENGTH_MILLI_SECONDS,
};
use crate::snapshot::{clone_client, count_spectator_clients, lemma_count_spectators_bound};
use crate::tables::lemma_index_of_unique;
use vstd::prelude::*;
use vstd::string::StringExecFns;

verus! {

/// The reply to a request for a change of status.
#[derive(Debug)]
pub struct UpdateLobbyReply {
    /// The HTTP status: 200, 404 or 422.
    pub status_code: u16,
    /// The body of the reply: empty on success, else the reason.
    pub body: String,
    /// The tick under which the host runs the first update, where the
    /// request has started the game.
    pub start: Option<u128>,
}

pub open spec fn lobby_missing_message(lobby_id: u128) -> Seq<char> {
    "Lobby with id '"@ + uuid_text(lobby_id) + "' does not exist"@
}

pub open spec fn lobby_running_message() -> Seq<char> {
    "Lobby status cannot be updated while lobby is running"@
}

pub open spec fn lobby_finished_message() -> Seq<char> {
    "Lobby status cannot be updated after lobby is finished"@
}

/// `lobby` is a lobby as it is created: pending, at round nothing, with
/// the default tick length and with nobody and nothing in it.
pub open spec fn is_new_lobby(lobby: Lobby, lobby_id: u128, tick: u128) -> bool {
    &&& lobby.id == lobby_id
    &&& lobby.tick == tick
    &&& lobby.round == 0
    &&& lobby.tick_length_milli_seconds == TICK_LENGTH_MILLI_SECONDS
    &&& lobby.status == LobbyStatus::PENDING
    &&& lobby.clients@ == Seq::<ClientEntry>::empty()
    &&& lobby.client_messages@ == Seq::<PendingInput>::empty()
    &&& lobby.game_state.players@ == Seq::<PlayerEntry>::empty()
    &&& lobby.game_state.entities@ == Seq::<Projectile>::empty()
}

/// The clients of a sequence of entries, in order.
pub open spec fn clients_of(entries: Seq<ClientEntry>) -> Seq<Client> {
    Seq::new(entries.len(), |i: int| entries[i].client)
}

/// `out` shows `lobby` as the control plane lists it.
pub open spec fn is_lobby_out(lobby: Lobby, out: LobbyOut) -> bool {
    &&& out.id == lobby.id
    &&& out.status == lobby.status
    &&& out.clients@ == clients_of(lobby.clients@)
    &&& out.spectators == count_spectators(lobby.clients@)
}

/// A lobby as it is created.
pub fn new_lobby(lobby_id: u128, tick: u128) -> (lobby: Lobby)
    ensures
        is_new_lobby(lobby, lobby_id, tick),
        lobby.wf(),
{
    let lobby = Lobby {
        round: 0,
        tick,
        tick_length_milli_seconds: TICK_LENGTH_MILLI_SECONDS,
        client_messages: Vec::new(),
        clients: Vec::new(),
        id: lobby_id,
        status: LobbyStatus::PENDING,
        game_state: GameState { players: Vec::new(), entities: Vec::new() },
    };
    lobby
}

/// A directory without lobbies.
pub fn new_server() -> (server: Server)
    ensures
        server.wf(),
        server.lobbies@ == Seq::<Lobby>::empty(),
{
    let server = Server { lobbies: Vec::new() };
    server
}

/// Finds the lobby `lobby_id`.
pub fn find_lobby(server: &Server, lobby_id: u128) -> (found: Option<usize>)
    requires
        server.wf(),
    ensures
        found is Some <==> server.has_lobby(lobby_id),
        found matches Some(i) ==> i < server.lobbies.len() && server.lobbies[i as int].id
            == lobby_id && i == server.lobby_index(lobby_id),
{
    let mut i: usize = 0;
    while i < server.lobbies.len()
        invariant
            i <= server.lobbies.len(),
            server.wf(),
            forall|j: int| 0 <= j < i ==> server.lobbies[j].id != lobby_id,
        decreases server.lobbies.len() - i,
    {
        if server.lobbies[i].id == lobby_id {
            proof {
                lemma_index_of_unique(lobby_ids(server.lobbies@), i as int, lobby_id);
            }
            return Some(i);
        }
        i += 1;
    }
    None
}

/// `after` is `before` with a new lobby `lobby_id` under the tick `tick`:
/// behind the others, or in the place of the lobby that had this id
/// before.
pub open spec fn lobby_created(before: Server, after: Server, lobby_id: u128, tick: u128) -> bool {
    if before.has_lobby(lobby_id) {
        let i = before.lobby_index(lobby_id);
        &&& after.lobbies.len() == before.lobbies.len()
        &&& is_new_lobby(after.lobbies[i], lobby_id, tick)
        &&& forall|j: int|
            0 <= j < before.lobbies.len() && j != i ==> after.lobbies[j] == before.lobbies[j]
    } else {
        &&& after.lobbies.len() == before.lobbies.len() + 1
        &&& is_new_lobby(after.lobbies[before.lobbies.len() as int], lobby_id, tick)
        &&& forall|j: int| 0 <= j < before.lobbies.len() ==> after.lobbies[j] == before.lobbies[j]
    }
}

/// Puts a new lobby `lobby_id` under the tick `tick` into the directory. A
/// lobby that had this id before gives way to it.
pub fn create_lobby(server: &mut Server, lobby_id: u128, tick: u128) -> (reply:
    LobbyCreateResponse)
    requires
        old(server).wf(),
    ensures
        final(server).wf(),
        lobby_created(*old(server), *final(server), lobby_id, tick),
        reply.id == lobby_id,
{
    let ghost before = server.lobbies@;
    let lobby = new_lobby(lobby_id, tick);
    match find_lobby(server, lobby_id) {
        Some(i) => {
            server.lobbies[i] = lobby;
            proof {
                assert(lobby_ids(server.lobbies@) =~= lobby_ids(before));
            }
        },
        None => {
            server.lobbies.push(lobby);
            proof {
                assert(lobby_ids(server.lobbies@) =~= lobby_ids(before).push(lobby_id));
            }
        },
    }
    LobbyCreateResponse { id: lobby_id }
}

/// Creates a lobby. Its id and its first tick are freshly drawn, so the
/// contract holds for some pair of them; the id is the one in the reply.
pub fn get_create_lobby_reply(server: &mut Server) -> (reply: LobbyCreateResponse)
    requires
        old(server).wf(),
    ensures
        final(server).wf(),
        exists|tick: u128| #[trigger] lobby_created(*old(server), *final(server), reply.id, tick),
{
    let lobby_id: u128 = fresh_uuid();
    let tick: u128 = fresh_uuid();
    create_lobby(server, lobby_id, tick)
}

/// The lobby as the control plane lists it.
pub fn lobby_out(lobby: &Lobby) -> (out: LobbyOut)
    requires
        lobby.clients.len() <= i32::MAX,
    ensures
        is_lobby_out(*lobby, out),
{
    let mut clients: Vec<Client> = Vec::new();
    let mut i: usize = 0;
    while i < lobby.clients.len()
        invariant
            i <= lobby.clients.len(),
            clients.len() == i,
            forall|k: int| 0 <= k < i ==> clients[k] == lobby.clients[k].client,
        decreases lobby.clients.len() - i,
    {
        clients.push(clone_client(&lobby.clients[i].client));
        i += 1;
    }
    proof {
        assert(clients@ =~= clients_of(lobby.clients@));
        lemma_count_spectators_bound(lobby.clients@);
    }
    let spectators: usize = count_spectator_clients(&lobby.clients);
    LobbyOut { id: lobby.id, clients, status: lobby.status, spectators: spectators as i32 }
}

/// The list of the lobbies, in the order of their creation.
pub fn get_lobbies_list_reply(server: &Server) -> (out: ServerOut)
    requires
        server.wf(),
    ensures
        out.lobbies.len() == server.lobbies.len(),
        forall|i: int|
            0 <= i < server.lobbies.len() ==> is_lobby_out(
                server.lobbies[i],
                #[trigger] out.lobbies[i],
            ),
{
    let mut lobbies: Vec<LobbyOut> = Vec::new();
    let mut i: usize = 0;
    while i < server.lobbies.len()
        invariant
            i <= server.lobbies.len(),
            server.wf(),
            lobbies.len() == i,
            forall|k: int| 0 <= k < i ==> is_lobby_out(server.lobbies[k], #[trigger] lobbies[k]),
        decreases server.lobbies.len() - i,
    {
        lobbies.push(lobby_out(&server.lobbies[i]));
        i += 1;
    }
    ServerOut { lobbies }
}

/// What becomes of a request to give a lobby the status `requested`.
#[derive(Debug, Clone, Copy, PartialEq, Eq, Structural)]
pub enum StatusChange {
    /// The lobby takes the status.
    Accepted,
    /// The lobby is running and takes no request.
    RejectedRunning,
    /// The lobby is finished and stays so.
    RejectedFinished,
}

/// What becomes of a request to give a lobby of status `current` the
/// status `requested`. A running lobby takes no request. A finished lobby
/// stays finished. A pending lobby takes any status.
pub open spec fn status_change(current: LobbyStatus, requested: LobbyStatus) -> StatusChange {
    match current {
        LobbyStatus::RUNNING => StatusChange::RejectedRunning,
        LobbyStatus::FINISHED => if requested == LobbyStatus::FINISHED {
            StatusChange::Accepted
        } else {
            StatusChange::RejectedFinished
        },
        LobbyStatus::PENDING => StatusChange::Accepted,
    }
}

/// `after` is `before` with the status `requested`; where that starts the
/// game, with the lobby made ready for it first.
pub open spec fn status_set(before: Lobby, after: Lobby, requested: LobbyStatus) -> bool {
    if before.status == LobbyStatus::PENDING && requested == LobbyStatus::RUNNING {
        exists|ready: Lobby| #[trigger]
            game_started(before, ready) && after == (Lobby { status: requested, ..ready })
    } else {
        after == (Lobby { status: requested, ..before })
    }
}

/// Gives the lobby the status `requested`, if it is pending, or finished
/// and asked to be finished. A pending lobby that is set running is made
/// ready for the game first. Any other request changes nothing.
pub fn set_lobby_status(lobby: &mut Lobby, requested: LobbyStatus) -> (change: StatusChange)
    requires
        old(lobby).wf(),
    ensures
        final(lobby).wf(),
        change == status_change(old(lobby).status, requested),
        final(lobby).id == old(lobby).id,
        change != StatusChange::Accepted ==> *final(lobby) == *old(lobby),
        change == StatusChange::Accepted ==> status_set(*old(lobby), *final(lobby), requested),
{
    match lobby.status {
        LobbyStatus::RUNNING => StatusChange::RejectedRunning,
        LobbyStatus::FINISHED => match requested {
            LobbyStatus::FINISHED => StatusChange::Accepted,
            _ => StatusChange::RejectedFinished,
        },
        LobbyStatus::PENDING => {
            match requested {
                LobbyStatus::RUNNING => {
                    start_game_for_lobby(lobby);
                    let ghost ready = *lobby;
                    lobby.status = requested;
                },
                _ => {
                    lobby.status = requested;
                },
            }
            StatusChange::Accepted
        },
    }
}

/// What `get_update_lobby_reply` hands back and leaves behind.
pub open spec fn update_lobby_result(
    before: Server,
    after: Server,
    lobby_id: u128,
    requested: LobbyStatus,
    reply: UpdateLobbyReply,
) -> bool {
    if !before.has_lobby(lobby_id) {
        &&& after == before
        &&& reply.status_code == 404
        &&& reply.body@ == lobby_missing_message(lobby_id)
        &&& reply.start is None
    } else {
        let i = before.lobby_index(lobby_id);
        &&& after.lobbies.len() == before.lobbies.len()
        &&& forall|j: int|
            0 <= j < before.lobbies.len() && j != i ==> after.lobbies[j] == before.lobbies[j]
        &&& match status_change(before.lobbies[i].status, requested) {
            StatusChange::RejectedRunning => {
                &&& after.lobbies[i] == before.lobbies[i]
                &&& reply.status_code == 422
                &&& reply.body@ == lobby_running_message()
                &&& reply.start is None
            },
            StatusChange::RejectedFinished => {
                &&& after.lobbies[i] == before.lobbies[i]
                &&& reply.status_code == 422
                &&& reply.body@ == lobby_finished_message()
                &&& reply.start is None
            },
            StatusChange::Accepted => {
                &&& status_set(before.lobbies[i], after.lobbies[i], requested)
                &&& reply.status_code == 200
                &&& reply.body@ == Seq::<char>::empty()
                &&& reply.start == if before.lobbies[i].status == LobbyStatus::PENDING
                    && requested == LobbyStatus::RUNNING {
                    Some(after.lobbies[i].tick)
                } else {
                    None
                }
            },
        }
    }
}

/// Answers a request to give the lobby `lobby_id` the status in the body:
/// 404 where there is no such lobby, 422 where the lobby is running or is
/// asked to leave the finished state, 200 where it takes the status. Where
/// the request starts the game, the reply holds the tick under which the
/// host runs the first update at once.
pub fn get_update_lobby_reply(
    lobby_id: u128,
    server: &mut Server,
    update_lobby_body: UpdateLobbyBody,
) -> (reply: UpdateLobbyReply)
    requires
        old(server).wf(),
    ensures
        final(server).wf(),
        update_lobby_result(*old(server), *final(server), lobby_id, update_lobby_body.status, reply),
{
    let ghost before = server.lobbies@;
    let i: usize = match find_lobby(server, lobby_id) {
        Some(i) => i,
        None => {
            let mut body = String::from_str("Lobby with id '");
            let text = uuid_to_string(lobby_id);
            body.append(text.as_str());
            body.append("' does not exist");
            return UpdateLobbyReply { status_code: 404, body, start: None };
        },
    };
    let was_pending: bool = match server.lobbies[i].status {
        LobbyStatus::PENDING => true,
        _ => false,
    };
    let change = set_lobby_status(&mut server.lobbies[i], update_lobby_body.status);
    proof {
        assert(lobby_ids(server.lobbies@) =~= lobby_ids(before));
        assert forall|j: int| 0 <= j < server.lobbies.len() implies (
        #[trigger] server.lobbies[j]).wf() by {
        }
    }
    match change {
        StatusChange::RejectedRunning => UpdateLobbyReply {
            status_code: 422,
            body: String::from_str("Lobby status cannot be updated while lobby is running"),
            start: None,
        },
        StatusChange::RejectedFinished => UpdateLobbyReply {
            status_code: 422,
            body: String::from_str("Lobby status cannot be updated after lobby is finished"),
            start: None,
        },
        StatusChange::Accepted => {
            let start: Option<u128> = match update_lobby_body.status {
                LobbyStatus::RUNNING => if was_pending {
                    Some(server.lobbies[i].tick)
                } else {
                    None
                },
                _ => None,
            };
            UpdateLobbyReply { status_code: 200, body: String::new(), start }
        },
    }
}

} // verus!
