//! The messages, and the message registry.
//!
//! Every distinct message type a session uses is registered, before any
//! session traffic flows, in a [`MsgTable`] under a stable key together
//! with its transport reliability class.  Building the table freezes it
//! and assigns each type its numeric tag — the de facto wire schema.  Both
//! peers must register identical type sets in identical order before
//! connecting; that is a deployment precondition, not something the
//! registry can enforce by itself.

use vstd::prelude::*;

use crate::game::Team;
use crate::net::CId;

verus! {

/// Registry key for [`ConnectionBroadcast`].
pub const KEY_CONNECTION_BROADCAST: u32 = 1;

/// Registry key for [`DisconnectBroadcast`].
pub const KEY_DISCONNECT_BROADCAST: u32 = 2;

/// Registry key for [`StartGame`].
pub const KEY_START_GAME: u32 = 3;

/// Registry key for [`BrickBreak`].
pub const KEY_BRICK_BREAK: u32 = 4;

/// Registry key for [`GameWin`].
pub const KEY_GAME_WIN: u32 = 5;

/// Registry key for [`Connection`].
pub const KEY_CONNECTION: u32 = 6;

/// Registry key for [`Response`].
pub const KEY_RESPONSE: u32 = 7;

/// Registry key for [`Disconnect`].
pub const KEY_DISCONNECT: u32 = 8;

/// Registry key for [`Ping`].
pub const KEY_PING: u32 = 9;

/// Registry key for the envelope type that replicates transforms.
pub const KEY_NET_TRANSFORM: u32 = 10;

/// Registry key for the envelope type that replicates velocities.
pub const KEY_NET_VELOCITY: u32 = 11;

/// The connection message: what a client presents when it connects.
#[derive(Clone, PartialEq, Eq, Debug)]
pub struct Connection {
    /// The connecting player's display name.
    pub name: String,
}

impl Connection {
    /// A connection message carrying the given player name.
    pub fn new(name: String) -> (r: Connection)
        ensures
            r.name == name,
    {
        Connection { name }
    }
}

/// Broadcast to the other clients when a player joins.
#[derive(Clone, PartialEq, Eq, Debug)]
pub struct ConnectionBroadcast {
    /// The joining player's display name.
    pub name: String,
    /// The connection id the server assigned to the joining player.
    pub cid: CId,
}

impl ConnectionBroadcast {
    /// A join broadcast for the player `name` on connection `cid`.
    pub fn new(name: String, cid: CId) -> (r: ConnectionBroadcast)
        ensures
            r.name == name,
            r.cid == cid,
    {
        ConnectionBroadcast { name, cid }
    }
}

/// Broadcast to the other clients when a player disconnects.
#[derive(Copy, Clone, PartialEq, Eq, Structural, Debug)]
pub struct DisconnectBroadcast {
    /// The connection id of the player that left.
    pub cid: CId,
}

/// The server's response to a connection attempt.
#[derive(Clone, PartialEq, Eq, Debug)]
pub enum Response {
    /// Accepted: the new player's own connection id, and the already
    /// present player, if any.
    Accepted(CId, Option<(CId, String)>),
    /// Rejected, with the reason.
    Rejected(RejectReason),
}

/// Why a connection attempt was rejected.
#[derive(Copy, Clone, PartialEq, Eq, Structural, Debug)]
pub enum RejectReason {
    /// The session already holds two players.
    MaxPlayersReached,
}

/// The disconnection message.
#[derive(Copy, Clone, PartialEq, Eq, Structural, Debug)]
pub struct Disconnect {}

/// Sent by the server when it starts the game.
#[derive(Copy, Clone, PartialEq, Eq, Structural, Debug)]
pub struct StartGame;

/// Broadcast by the server when a team has won.
#[derive(Copy, Clone, PartialEq, Eq, Structural, Debug)]
pub struct GameWin(pub Team);

/// Broadcast by the server when the brick with the inner id is destroyed.
#[derive(Copy, Clone, PartialEq, Eq, Structural, Debug)]
pub struct BrickBreak(pub u32);

/// A latency probe: the client stamps it with its clock, the server
/// echoes it unmodified, and the client reads the elapsed time on echo
/// receipt.
#[derive(Copy, Clone, PartialEq, Eq, Structural, Debug)]
pub struct Ping {
    /// The sender's clock at emission, in truncated unix milliseconds.
    pub time: u32,
}

/// The transport reliability class a message type is carried on.
#[derive(Copy, Clone, PartialEq, Eq, Structural, Debug)]
pub enum Transport {
    /// Ordered, reliable delivery.
    TCP,
    /// Best-effort, unreliable delivery.
    UDP,
}

/// Why a registration was refused.
#[derive(Copy, Clone, PartialEq, Eq, Structural, Debug)]
pub enum MsgRegError {
    /// The type was registered before: a programmer fault that must abort
    /// startup, since a silent duplicate would desynchronize the wire
    /// format between peers.
    TypeAlreadyRegistered,
}

/// The message registry under construction: each entry pairs a message
/// type's key with its transport class.  Entry order is the registration
/// order, and with it the wire schema.
#[derive(Clone, PartialEq, Eq, Debug)]
pub struct MsgTable {
    /// The registrations, in order.
    pub table: Vec<(u32, Transport)>,
}

impl MsgTable {
    /// Well-formed: no type registered twice.
    pub open spec fn wf(self) -> bool {
        forall|i: int, j: int|
            0 <= i < j < self.table@.len() ==> (#[trigger] self.table@[i]).0
                != (#[trigger] self.table@[j]).0
    }

    /// What `registered` decides.
    pub open spec fn spec_registered(self, key: u32) -> bool {
        exists|i: int| 0 <= i < self.table@.len() && (#[trigger] self.table@[i]).0 == key
    }

    /// An empty registry.
    pub fn new() -> (r: MsgTable)
        ensures
            r.table@.len() == 0,
            r.wf(),
    {
        MsgTable { table: Vec::new() }
    }

    /// Whether the type with key `key` has been registered.
    pub fn registered(&self, key: u32) -> (r: bool)
        ensures
            r == self.spec_registered(key),
    {
        let mut i: usize = 0;
        while i < self.table.len()
            invariant
                i <= self.table@.len(),
                forall|k: int| 0 <= k < i ==> (#[trigger] self.table@[k]).0 != key,
            decreases self.table@.len() - i,
        {
            if self.table[i].0 == key {
                return true;
            }
            i = i + 1;
        }
        false
    }

    /// Registers the message type with key `key` on transport class
    /// `transport`, so that it can be sent over the network.  Succeeds and
    /// appends the entry if and only if the key is new; a duplicate leaves
    /// the registry unchanged and is a non-recoverable startup fault for
    /// the caller.
    pub fn register(&mut self, key: u32, transport: Transport) -> (r: Result<(), MsgRegError>)
        requires
            old(self).wf(),
        ensures
            final(self).wf(),
            r is Ok <==> !old(self).spec_registered(key),
            r is Ok ==> final(self).table@ == old(self).table@.push((key, transport)),
            r is Err ==> final(self).table@ == old(self).table@ && r == Result::<
                (),
                MsgRegError,
            >::Err(MsgRegError::TypeAlreadyRegistered),
    {
        if self.registered(key) {
            Err(MsgRegError::TypeAlreadyRegistered)
        } else {
            self.table.push((key, transport));
            Ok(())
        }
    }

    /// Builds the registry into its immutable form, assigning tags.  The
    /// connection, response and disconnect types are prepended first, so
    /// they get universal tags; every other type keeps its registration
    /// order.  Fails if and only if the three are not distinct fresh keys.
    pub fn build(self, con: u32, resp: u32, discon: u32) -> (r: Result<MsgTableParts, MsgRegError>)
        requires
            self.wf(),
        ensures
            r is Ok <==> (con != resp && con != discon && resp != discon
                && !self.spec_registered(con) && !self.spec_registered(resp)
                && !self.spec_registered(discon)),
            r matches Ok(parts) ==> parts.table@ == seq![
                (con, Transport::TCP),
                (resp, Transport::TCP),
                (discon, Transport::TCP),
            ] + self.table@ && parts.wf(),
            r is Err ==> r == Result::<MsgTableParts, MsgRegError>::Err(
                MsgRegError::TypeAlreadyRegistered,
            ),
    {
        if con == resp || con == discon || resp == discon || self.registered(con)
            || self.registered(resp) || self.registered(discon) {
            return Err(MsgRegError::TypeAlreadyRegistered);
        }
        let mut table: Vec<(u32, Transport)> = Vec::new();
        table.push((con, Transport::TCP));
        table.push((resp, Transport::TCP));
        table.push((discon, Transport::TCP));
        let mut i: usize = 0;
        while i < self.table.len()
            invariant
                i <= self.table@.len(),
                self.wf(),
                !self.spec_registered(con),
                !self.spec_registered(resp),
                !self.spec_registered(discon),
                con != resp && con != discon && resp != discon,
                table@ == seq![
                    (con, Transport::TCP),
                    (resp, Transport::TCP),
                    (discon, Transport::TCP),
                ] + self.table@.take(i as int),
            decreases self.table@.len() - i,
        {
            let e = self.table[i];
            table.push(e);
            proof {
                assert(self.table@.take(i + 1) =~= self.table@.take(i as int).push(e));
                assert(table@ == (seq![
                    (con, Transport::TCP),
                    (resp, Transport::TCP),
                    (discon, Transport::TCP),
                ] + self.table@.take(i as int)).push(e));
                assert(table@ =~= seq![
                    (con, Transport::TCP),
                    (resp, Transport::TCP),
                    (discon, Transport::TCP),
                ] + self.table@.take(i + 1));
            }
            i = i + 1;
        }
        proof {
            assert(self.table@.take(self.table@.len() as int) =~= self.table@);
        }
        let parts = MsgTableParts { table };
        proof {
            assert forall|a: int, b: int| 0 <= a < b < parts.table@.len() implies (
            #[trigger] parts.table@[a]).0 != (#[trigger] parts.table@[b]).0 by {
                if a >= 3 && b >= 3 {
                    assert(parts.table@[a] == self.table@[a - 3]);
                    assert(parts.table@[b] == self.table@[b - 3]);
                } else if b >= 3 {
                    assert(parts.table@[b] == self.table@[b - 3]);
                    assert(!self.spec_registered(con) && !self.spec_registered(resp)
                        && !self.spec_registered(discon));
                }
            }
        }
        Ok(parts)
    }
}

/// The built, immutable message registry.  The tag of a type is its index
/// here: the stable numeric id that identifies the type on the wire.
#[derive(Clone, PartialEq, Eq, Debug)]
pub struct MsgTableParts {
    /// The registrations, in tag order.
    pub table: Vec<(u32, Transport)>,
}

impl MsgTableParts {
    /// Well-formed: no type holds two tags.
    pub open spec fn wf(self) -> bool {
        forall|i: int, j: int|
            0 <= i < j < self.table@.len() ==> (#[trigger] self.table@[i]).0
                != (#[trigger] self.table@[j]).0
    }

    /// The tag and transport class of the type with key `key`: the unique
    /// entry holding `key`, or nothing if the type was never registered.
    pub fn lookup(&self, key: u32) -> (r: Option<(usize, Transport)>)
        requires
            self.wf(),
        ensures
            match r {
                Some((tag, transport)) => tag < self.table@.len() && self.table@[tag as int] == (
                    key,
                    transport,
                ),
                None => forall|k: int|
                    0 <= k < self.table@.len() ==> (#[trigger] self.table@[k]).0 != key,
            },
    {
        let mut i: usize = 0;
        while i < self.table.len()
            invariant
                i <= self.table@.len(),
                forall|k: int| 0 <= k < i ==> (#[trigger] self.table@[k]).0 != key,
            decreases self.table@.len() - i,
        {
            if self.table[i].0 == key {
                return Some((i, self.table[i].1));
            }
            i = i + 1;
        }
        None
    }
}

/// The registry of this game's discrete messages, registered in the one
/// order both peers must use: the join and leave broadcasts, the start
/// signal, the brick-break event and the win event, all on the reliable
/// class.
pub fn get_table() -> (r: MsgTable)
    ensures
        r.table@ == seq![
            (KEY_CONNECTION_BROADCAST, Transport::TCP),
            (KEY_DISCONNECT_BROADCAST, Transport::TCP),
            (KEY_START_GAME, Transport::TCP),
            (KEY_BRICK_BREAK, Transport::TCP),
            (KEY_GAME_WIN, Transport::TCP),
        ],
        r.wf(),
{
    let mut table = MsgTable::new();
    let _ = table.register(KEY_CONNECTION_BROADCAST, Transport::TCP);
    let _ = table.register(KEY_DISCONNECT_BROADCAST, Transport::TCP);
    let _ = table.register(KEY_START_GAME, Transport::TCP);
    let _ = table.register(KEY_BRICK_BREAK, Transport::TCP);
    let _ = table.register(KEY_GAME_WIN, Transport::TCP);
    proof {
        assert(table.table@ =~= seq![
            (KEY_CONNECTION_BROADCAST, Transport::TCP),
            (KEY_DISCONNECT_BROADCAST, Transport::TCP),
            (KEY_START_GAME, Transport::TCP),
            (KEY_BRICK_BREAK, Transport::TCP),
            (KEY_GAME_WIN, Transport::TCP),
        ]);
    }
    table
}

} // verus!
