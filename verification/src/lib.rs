//! An authoritative state-replication layer for a real-time two-peer game
//! session.
//!
//! The crate keeps a small set of game-object fields approximately
//! synchronized across a server and its clients, and carries discrete,
//! reliable game events beside them.  It is organised around six parts:
//! a message registry ([`messages`]), peer addressing and per-field sync
//! directives ([`net`]), the per-frame replication tick ([`sync`]), the
//! event consumers for destroyed bricks ([`brick`]), the session state
//! machine and win handling ([`game`]), and the lobby roster ([`lobby`]).
//!
//! All functions here are pure decision logic over plain values: a thin
//! driver owns the transport and the frame loop, drains the inbound
//! buffers once per frame, hands the envelopes to the tick, and performs
//! the send instructions the tick returns.

use vstd::prelude::*;

pub mod brick;
pub mod game;
pub mod lobby;
pub mod messages;
pub mod net;
pub mod sync;

verus! {

/// Which optional networking roles this process holds: a host acts as both
/// server and client at once.
#[derive(Copy, Clone, Eq, PartialEq, Structural, Debug, Hash)]
pub enum MultiplayerType {
    /// Dedicated server.
    Server,
    /// Server and client in one process.
    Host,
    /// Pure client.
    Client,
}

impl MultiplayerType {
    /// What `is_server` decides.
    pub open spec fn spec_is_server(self) -> bool {
        match self {
            MultiplayerType::Server => true,
            MultiplayerType::Host => true,
            MultiplayerType::Client => false,
        }
    }

    /// What `is_client` decides.
    pub open spec fn spec_is_client(self) -> bool {
        match self {
            MultiplayerType::Server => false,
            MultiplayerType::Host => true,
            MultiplayerType::Client => true,
        }
    }

    /// Whether this is a server-capable role (`Server` or `Host`).
    pub fn is_server(&self) -> (r: bool)
        ensures
            r == self.spec_is_server(),
    {
        match self {
            MultiplayerType::Server => true,
            MultiplayerType::Host => true,
            MultiplayerType::Client => false,
        }
    }

    /// Whether this role runs a client (`Client` or `Host`).
    pub fn is_client(&self) -> (r: bool)
        ensures
            r == self.spec_is_client(),
    {
        match self {
            MultiplayerType::Server => false,
            MultiplayerType::Host => true,
            MultiplayerType::Client => true,
        }
    }
}

/// The lifecycle of one process: menu, then per game session
/// `Lobby -> Game -> GameOver -> Lobby`.
#[derive(Copy, Clone, Eq, PartialEq, Structural, Debug, Hash)]
pub enum GameState {
    /// Main menu, before any session exists.
    Menu,
    /// Client connecting, or server waiting for clients.
    Lobby,
    /// Playing or viewing a game.
    Game,
    /// The game has been won; peers dwell here before returning to the lobby.
    GameOver,
}

} // verus!
