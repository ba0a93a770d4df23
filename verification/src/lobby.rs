//! The lobby: the session roster and the decisions taken on connection,
//! disconnection and game start.
//!
//! The [`Players`] roster is server-authoritative state that also exists,
//! mirrored by broadcasts, on every client.  The functions here are the
//! pure decision halves of the lobby loop: the driver hands them the facts
//! the transport reported (a new connection, a departed connection id, a
//! received broadcast or response) and performs the sends they return.

use vstd::prelude::*;

use crate::game::Session;
use crate::game::Team;
use crate::GameState;
use crate::MultiplayerType;
use crate::messages::{ConnectionBroadcast, DisconnectBroadcast, RejectReason, Response};
use crate::net::CId;

verus! {

/// Whether the roster slot `p` is taken by the connection id `cid`.
pub open spec fn slot_is(p: Option<(CId, String)>, cid: CId) -> bool {
    p matches Some(q) && q.0 == cid
}

/// The roster of the (at most two) seated players, and which side this
/// peer plays, if any.
#[derive(Clone, PartialEq, Eq, Debug)]
pub struct Players {
    /// The left player's connection id and name.
    pub p1: Option<(CId, String)>,
    /// The right player's connection id and name.
    pub p2: Option<(CId, String)>,
    /// The side this peer controls; `None` on a spectator or dedicated
    /// server.
    pub me: Option<Team>,
}

/// The roster after `add`: the first free slot is filled, left before
/// right; a full roster is unchanged.
pub open spec fn spec_add(p: Players, cid: CId, name: String) -> Players {
    if p.p1 is None {
        Players { p1: Some((cid, name)), p2: p.p2, me: p.me }
    } else if p.p2 is None {
        Players { p1: p.p1, p2: Some((cid, name)), me: p.me }
    } else {
        p
    }
}

/// The roster after `remove_cid`: the first slot held by `cid`, left
/// checked before right, is vacated; a roster not seating `cid` is
/// unchanged.
pub open spec fn spec_remove(p: Players, cid: CId) -> Players {
    if slot_is(p.p1, cid) {
        Players { p1: None, p2: p.p2, me: p.me }
    } else if slot_is(p.p2, cid) {
        Players { p1: p.p1, p2: None, me: p.me }
    } else {
        p
    }
}

/// The roster after removing every connection id in `discons`, in order.
pub open spec fn spec_remove_all(p: Players, discons: Seq<CId>) -> Players
    decreases discons.len(),
{
    if discons.len() == 0 {
        p
    } else {
        spec_remove(spec_remove_all(p, discons.drop_last()), discons.last())
    }
}

impl Players {
    /// How many players are seated.
    pub open spec fn spec_count(self) -> int {
        (if self.p1 is Some {
            1int
        } else {
            0int
        }) + (if self.p2 is Some {
            1int
        } else {
            0int
        })
    }

    /// An empty roster.
    pub fn new() -> (r: Players)
        ensures
            r.p1 is None,
            r.p2 is None,
            r.me is None,
    {
        Players { p1: None, p2: None, me: None }
    }

    /// The seated player found first, left before right, if any.
    pub fn first(&self) -> (r: Option<(CId, String)>)
        ensures
            r == if self.p1 is Some {
                self.p1
            } else {
                self.p2
            },
    {
        if self.p1.is_some() {
            clone_slot(&self.p1)
        } else {
            clone_slot(&self.p2)
        }
    }

    /// How many players are seated.
    pub fn count(&self) -> (r: usize)
        ensures
            r == self.spec_count(),
    {
        match (&self.p1, &self.p2) {
            (None, None) => 0,
            (Some(_), None) => 1,
            (None, Some(_)) => 1,
            (Some(_), Some(_)) => 2,
        }
    }

    /// Vacates the slot held by `cid`, if any, and reports whether one
    /// was; which side the peer plays is untouched.
    pub fn remove_cid(&mut self, cid: CId) -> (r: bool)
        ensures
            *final(self) == spec_remove(*old(self), cid),
            r == (slot_is(old(self).p1, cid) || slot_is(old(self).p2, cid)),
    {
        if let Some(c) = &self.p1 {
            if c.0 == cid {
                self.p1 = None;
                return true;
            }
        }
        if let Some(c) = &self.p2 {
            if c.0 == cid {
                self.p2 = None;
                return true;
            }
        }
        false
    }

    /// Seats a player in the first free slot, left before right, and
    /// reports whether there was room; which side the peer plays is
    /// untouched.
    pub fn add(&mut self, cid: CId, name: String) -> (r: bool)
        ensures
            *final(self) == spec_add(*old(self), cid, name),
            r == (old(self).spec_count() < 2),
    {
        match (&self.p1, &self.p2) {
            (None, _) => {
                self.p1 = Some((cid, name));
                true
            },
            (Some(_), None) => {
                self.p2 = Some((cid, name));
                true
            },
            (Some(_), Some(_)) => false,
        }
    }
}

impl Default for Players {
    /// An empty roster.
    fn default() -> (r: Players)
        ensures
            r.p1 is None,
            r.p2 is None,
            r.me is None,
    {
        Players::new()
    }
}

/// A copy of one roster slot.
fn clone_slot(p: &Option<(CId, String)>) -> (r: Option<(CId, String)>)
    ensures
        r == *p,
{
    match p {
        Some(q) => Some((q.0, q.1.clone())),
        None => None,
    }
}

/// The server's decision on a new connection presenting `name`: with a
/// free seat the player is accepted — the response carries the new
/// connection id and the player already present, if any, and a join
/// broadcast for the other clients goes out; with a full roster the
/// connection is rejected and nothing changes.
pub fn server_handle_connection(players: &mut Players, cid: CId, name: String) -> (r: (
    bool,
    Response,
    Option<ConnectionBroadcast>,
))
    ensures
        r.0 == (old(players).spec_count() < 2),
        *final(players) == spec_add(*old(players), cid, name),
        old(players).spec_count() < 2 ==> r.1 == Response::Accepted(
            cid,
            if old(players).p1 is Some {
                old(players).p1
            } else {
                old(players).p2
            },
        ) && r.2 == Some(ConnectionBroadcast { name, cid }),
        old(players).spec_count() >= 2 ==> r.1 == Response::Rejected(
            RejectReason::MaxPlayersReached,
        ) && r.2 is None,
{
    let existing = players.first();
    let added = players.add(cid, name.clone());
    if added {
        (true, Response::Accepted(cid, existing), Some(ConnectionBroadcast::new(name, cid)))
    } else {
        (false, Response::Rejected(RejectReason::MaxPlayersReached), None)
    }
}

/// A client's handling of the server's response to its connection
/// attempt: on acceptance it seats the already present player, if the
/// response names one, and learns its own side — right when another
/// player was first, left otherwise.  A rejection changes nothing.
pub fn client_handle_response(players: &mut Players, resp: &Response)
    ensures
        resp matches Response::Accepted(c, Some(p)) ==> {
            &&& final(players).p1 == spec_add(*old(players), p.0, p.1).p1
            &&& final(players).p2 == spec_add(*old(players), p.0, p.1).p2
            &&& final(players).me == Some(Team::Right)
        },
        resp matches Response::Accepted(c, None) ==> final(players).p1 == old(players).p1
            && final(players).p2 == old(players).p2 && final(players).me == Some(Team::Left),
        resp is Rejected ==> *final(players) == *old(players),
{
    match resp {
        Response::Accepted(_, Some(p)) => {
            let _ = players.add(p.0, p.1.clone());
            players.me = Some(Team::Right);
        },
        Response::Accepted(_, None) => {
            players.me = Some(Team::Left);
        },
        Response::Rejected(_) => {},
    }
}

/// The server's handling of a batch of departed connections: each id is
/// removed from the roster, in order, and a leave broadcast for it goes
/// out to the remaining clients whether or not it was seated.
pub fn server_handle_disconnects(players: &mut Players, discons: &Vec<CId>) -> (bms: Vec<
    DisconnectBroadcast,
>)
    ensures
        *final(players) == spec_remove_all(*old(players), discons@),
        bms@.len() == discons@.len(),
        forall|k: int| 0 <= k < discons@.len() ==> (#[trigger] bms@[k]).cid == discons@[k],
{
    let mut bms: Vec<DisconnectBroadcast> = Vec::new();
    let mut i: usize = 0;
    while i < discons.len()
        invariant
            i <= discons@.len(),
            *players == spec_remove_all(*old(players), discons@.take(i as int)),
            bms@.len() == i,
            forall|k: int| 0 <= k < i ==> (#[trigger] bms@[k]).cid == discons@[k],
        decreases discons@.len() - i,
    {
        proof {
            assert(discons@.take(i + 1).drop_last() =~= discons@.take(i as int));
            assert(discons@.take(i + 1).last() == discons@[i as int]);
        }
        let cid = discons[i];
        bms.push(DisconnectBroadcast { cid });
        let _ = players.remove_cid(cid);
        i = i + 1;
    }
    proof {
        assert(discons@.take(discons@.len() as int) =~= discons@);
    }
    bms
}

/// The server's decision when the start button is pressed: the game
/// starts, and the start signal is broadcast, exactly when this peer is
/// server-capable and both seats are taken.
pub fn try_start_game(players: &Players, session: &mut Session, is_server: bool) -> (send_start:
    bool)
    requires
        old(session).wf(),
    ensures
        final(session).wf(),
        send_start == (is_server && players.spec_count() == 2),
        send_start ==> final(session).state == if old(session).state == GameState::Lobby {
            GameState::Game
        } else {
            old(session).state
        } && final(session).win == old(session).win,
        !send_start ==> *final(session) == *old(session),
{
    if is_server && players.count() == 2 {
        session.start_game();
        true
    } else {
        false
    }
}

/// The label one roster slot shows: the seated player's name, or the
/// given placeholder while the seat is free.
pub fn player_label(slot: &Option<(CId, String)>, placeholder: &str) -> (r: String)
    ensures
        (slot matches Some(p) ==> r == p.1),
        slot is None ==> r@ == placeholder@,
{
    match slot {
        Some(p) => p.1.clone(),
        None => String::from_str(placeholder),
    }
}

/// The status line shown in the lobby, from this peer's role and what the
/// transport reports: a client shows whether its connection is open, a
/// server-capable peer whether the server is listening.
pub fn status_text(
    mpt: &MultiplayerType,
    client_open: Option<bool>,
    server_present: bool,
) -> (r: &'static str)
    ensures
        *mpt == MultiplayerType::Client && client_open == Some(true) ==> r@
            == "Client connected"@,
        *mpt == MultiplayerType::Client && client_open != Some(true) ==> r@
            == "Client not connected"@,
        *mpt != MultiplayerType::Client && server_present ==> r@ == "Server Listening"@,
        *mpt != MultiplayerType::Client && !server_present ==> r@ == "No Server"@,
{
    match mpt {
        MultiplayerType::Client => {
            match client_open {
                Some(true) => "Client connected",
                _ => "Client not connected",
            }
        },
        _ => {
            if server_present {
                "Server Listening"
            } else {
                "No Server"
            }
        },
    }
}

} // verus!
