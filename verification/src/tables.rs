//! Facts about the tables of a lobby: what adding an entry behind the
//! others, or taking one out, does to the peers that a table holds.

use crate::models::{
    client_peers, holds_client, holds_player, holds_player_client, player_peers, ClientEntry,
    ClientType, PlayerEntry,
};
use vstd::prelude::*;

verus! {

/// A sequence without duplicates stays so when a value that it does not
/// hold is put behind it, and then holds that value besides its own.
pub proof fn lemma_push_no_duplicates<A>(s: Seq<A>, x: A)
    requires
        s.no_duplicates(),
        !s.contains(x),
    ensures
        s.push(x).no_duplicates(),
        forall|y: A| s.push(x).contains(y) <==> (y == x || s.contains(y)),
{
    assert forall|y: A| s.push(x).contains(y) <==> (y == x || s.contains(y)) by {
        if s.contains(y) {
            let k = choose|k: int| 0 <= k < s.len() && s[k] == y;
            assert(s.push(x)[k] == y);
        }
        if y == x {
            assert(s.push(x)[s.len() as int] == x);
        }
    }
}

/// A sequence without duplicates stays so when the value at `i` is taken
/// out, and then holds its other values and not that one.
pub proof fn lemma_remove_no_duplicates<A>(s: Seq<A>, i: int)
    requires
        s.no_duplicates(),
        0 <= i < s.len(),
    ensures
        s.remove(i).no_duplicates(),
        forall|y: A| s.remove(i).contains(y) <==> (y != s[i] && s.contains(y)),
{
    let r = s.remove(i);
    assert forall|y: A| r.contains(y) <==> (y != s[i] && s.contains(y)) by {
        if y != s[i] && s.contains(y) {
            let k = choose|k: int| 0 <= k < s.len() && s[k] == y;
            let k1 = if k < i {
                k
            } else {
                k - 1
            };
            assert(r[k1] == y);
        }
    }
}

/// In a sequence without duplicates, the place of a value is the only
/// index that holds it.
pub proof fn lemma_index_of_unique<A>(s: Seq<A>, i: int, x: A)
    requires
        s.no_duplicates(),
        0 <= i < s.len(),
        s[i] == x,
    ensures
        s.contains(x),
        s.index_of(x) == i,
{
}

/// What a client table holds after `entry`, of a peer that it did not hold,
/// is put behind the others.
pub proof fn lemma_client_pushed(clients: Seq<ClientEntry>, entry: ClientEntry)
    requires
        client_peers(clients).no_duplicates(),
        !holds_client(clients, entry.peer),
    ensures
        client_peers(clients.push(entry)).no_duplicates(),
        forall|p: u64|
            holds_client(clients.push(entry), p) <==> (p == entry.peer || holds_client(clients, p)),
        forall|p: u64|
            holds_player_client(clients.push(entry), p) <==> ((p == entry.peer
                && entry.client.client_type == ClientType::PLAYER) || holds_player_client(
                clients,
                p,
            )),
{
    let after = clients.push(entry);
    assert(client_peers(after) =~= client_peers(clients).push(entry.peer));
    lemma_push_no_duplicates(client_peers(clients), entry.peer);
    assert forall|p: u64|
        holds_player_client(after, p) <==> ((p == entry.peer && entry.client.client_type
            == ClientType::PLAYER) || holds_player_client(clients, p)) by {
    }
}

/// What a client table holds after the entry at `i` is taken out.
pub proof fn lemma_client_removed(clients: Seq<ClientEntry>, i: int)
    requires
        client_peers(clients).no_duplicates(),
        0 <= i < clients.len(),
    ensures
        client_peers(clients.remove(i)).no_duplicates(),
        forall|p: u64|
            holds_client(clients.remove(i), p) <==> (p != clients[i].peer && holds_client(
                clients,
                p,
            )),
        forall|p: u64|
            holds_player_client(clients.remove(i), p) <==> (p != clients[i].peer
                && holds_player_client(clients, p)),
{
    let after = clients.remove(i);
    assert(client_peers(after) =~= client_peers(clients).remove(i));
    lemma_remove_no_duplicates(client_peers(clients), i);
    assert(client_peers(clients)[i] == clients[i].peer);
    assert forall|p: u64|
        holds_player_client(after, p) <==> (p != clients[i].peer && holds_player_client(
            clients,
            p,
        )) by {
    }
}

/// What a player table holds after `entry`, of a peer that steers none of
/// its players, is put behind the others.
pub proof fn lemma_player_pushed(players: Seq<PlayerEntry>, entry: PlayerEntry)
    requires
        player_peers(players).no_duplicates(),
        !holds_player(players, entry.peer),
    ensures
        player_peers(players.push(entry)).no_duplicates(),
        forall|p: u64|
            holds_player(players.push(entry), p) <==> (p == entry.peer || holds_player(players, p)),
{
    assert(player_peers(players.push(entry)) =~= player_peers(players).push(entry.peer));
    lemma_push_no_duplicates(player_peers(players), entry.peer);
}

/// What a player table holds after the entry at `i` is taken out.
pub proof fn lemma_player_removed(players: Seq<PlayerEntry>, i: int)
    requires
        player_peers(players).no_duplicates(),
        0 <= i < players.len(),
    ensures
        player_peers(players.remove(i)).no_duplicates(),
        forall|p: u64|
            holds_player(players.remove(i), p) <==> (p != players[i].peer && holds_player(
                players,
                p,
            )),
{
    assert(player_peers(players.remove(i)) =~= player_peers(players).remove(i));
    lemma_remove_no_duplicates(player_peers(players), i);
    assert(player_peers(players)[i] == players[i].peer);
}

/// Two player tables with the same peers in the same order hold the same
/// peers.
pub proof fn lemma_same_peers(before: Seq<PlayerEntry>, after: Seq<PlayerEntry>)
    requires
        after.len() == before.len(),
        forall|i: int| 0 <= i < before.len() ==> (#[trigger] after[i]).peer == before[i].peer,
    ensures
        player_peers(after) == player_peers(before),
{
}

} // verus!
