//! The game-session state machine, win handling, and the latency probe.
//!
//! A session moves `Lobby -> Game -> GameOver -> Lobby`.  The transition
//! into `GameOver` is driven by a win event, produced on the server either
//! by the ball hitting a target ([`check_game_win`]) or by a registered
//! player disconnecting mid-game ([`handle_discon`]); clients receive the
//! same fact as a broadcast.  The transition back to the lobby is purely
//! local: every peer independently times out after a fixed dwell.

use vstd::prelude::*;

use crate::lobby::Players;
use crate::net::{CId, CidSpec, NetDirection};
use crate::messages::Ping;
use crate::GameState;
use crate::MultiplayerType;

verus! {

/// How long every peer stays in `GameOver` before returning to the lobby,
/// in milliseconds of simulated time.
pub const WIN_DWELL_MILLIS: u64 = 3000;

/// One of the two sides of the board.
#[derive(Copy, Clone, Eq, PartialEq, Structural, Debug, Hash)]
pub enum Team {
    /// The left side.
    Left,
    /// The right side.
    Right,
}

impl Team {
    /// What `other` returns.
    pub open spec fn spec_other(self) -> Team {
        match self {
            Team::Left => Team::Right,
            Team::Right => Team::Left,
        }
    }

    /// The opposing team.
    pub fn other(&self) -> (r: Team)
        ensures
            r == self.spec_other(),
    {
        match self {
            Team::Left => Team::Right,
            Team::Right => Team::Left,
        }
    }
}

/// The target that the opposing team is trying to hit.
#[derive(Copy, Clone, Eq, PartialEq, Structural, Debug, Hash)]
pub struct Target(pub Team);

/// One game session's replicated lifecycle state, together with the win
/// record that times the dwell in `GameOver`.
#[derive(Copy, Clone, Eq, PartialEq, Debug)]
pub struct Session {
    /// Where in the lifecycle this peer stands.
    pub state: GameState,
    /// The winner and the local clock (in milliseconds) at the moment the
    /// win was applied; recorded exactly while in `GameOver`.
    pub win: Option<(Team, u64)>,
}

impl Session {
    /// Well-formed: a win is recorded exactly while the session is in
    /// `GameOver`.
    pub open spec fn wf(self) -> bool {
        self.win is Some <==> self.state == GameState::GameOver
    }

    /// A fresh process: at the menu, with no session running.
    pub fn new() -> (r: Session)
        ensures
            r.state == GameState::Menu,
            r.win is None,
            r.wf(),
    {
        Session { state: GameState::Menu, win: None }
    }

    /// Leaving the menu opens the lobby; in any other state nothing
    /// changes.
    pub fn open_lobby(&mut self)
        requires
            old(self).wf(),
        ensures
            final(self).wf(),
            final(self).state == if old(self).state == GameState::Menu {
                GameState::Lobby
            } else {
                old(self).state
            },
            final(self).win == old(self).win,
    {
        if matches!(self.state, GameState::Menu) {
            self.state = GameState::Lobby;
        }
    }

    /// The game starts from the lobby — on the server when the start is
    /// decided, on a client when the start signal arrives; in any other
    /// state the signal changes nothing.
    pub fn start_game(&mut self)
        requires
            old(self).wf(),
        ensures
            final(self).wf(),
            final(self).state == if old(self).state == GameState::Lobby {
                GameState::Game
            } else {
                old(self).state
            },
            final(self).win == old(self).win,
    {
        if matches!(self.state, GameState::Lobby) {
            self.state = GameState::Game;
        }
    }

    /// Applies a win event observed at local time `now`.  Mid-game it
    /// moves the session to `GameOver`, records the winner, and tells a
    /// server-capable peer to broadcast the fact; a win event in any other
    /// state — in particular a second one after the first — changes
    /// nothing, so the `Game -> GameOver` transition fires at most once
    /// per session.
    pub fn on_win(&mut self, winner: Team, now: u64, mpt: MultiplayerType) -> (broadcast: bool)
        requires
            old(self).wf(),
        ensures
            final(self).wf(),
            old(self).state == GameState::Game ==> final(self).state == GameState::GameOver
                && final(self).win == Some((winner, now)) && broadcast == mpt.spec_is_server(),
            old(self).state != GameState::Game ==> *final(self) == *old(self) && !broadcast,
    {
        if matches!(self.state, GameState::Game) {
            self.state = GameState::GameOver;
            self.win = Some((winner, now));
            mpt.is_server()
        } else {
            false
        }
    }

    /// What `tick_dwell` tests: the fixed dwell after a win recorded at
    /// time `t` has fully elapsed at time `now`.
    pub open spec fn dwell_over(self, now: u64) -> bool {
        self.win matches Some((_, t)) && now > t + WIN_DWELL_MILLIS
    }

    /// Called once per frame with the local clock: once the session is in
    /// `GameOver` and the dwell has elapsed, the peer returns to the
    /// lobby on its own; otherwise nothing changes.
    pub fn tick_dwell(&mut self, now: u64)
        requires
            old(self).wf(),
        ensures
            final(self).wf(),
            old(self).state == GameState::GameOver && old(self).dwell_over(now) ==> final(self).state
                == GameState::Lobby && final(self).win is None,
            !(old(self).state == GameState::GameOver && old(self).dwell_over(now)) ==> *final(self)
                == *old(self),
    {
        if matches!(self.state, GameState::GameOver) {
            if let Some(w) = self.win {
                if now > WIN_DWELL_MILLIS && now - WIN_DWELL_MILLIS > w.1 {
                    self.state = GameState::Lobby;
                    self.win = None;
                }
            }
        }
    }
}

/// The ball's session-wide object id, fixed at world setup and identical
/// on every peer.
pub const BALL_NET_ID: u64 = 5768696975200910899;

/// The left paddle's session-wide object id.
pub const PADDLE_LEFT_NET_ID: u64 = 6413180502345645314;

/// The right paddle's session-wide object id.
pub const PADDLE_RIGHT_NET_ID: u64 = 6413180502345645315;

/// The ball's sync directive at world setup: the server simulates it and
/// publishes to everyone; a client follows.
pub fn ball_dir(mpt: &MultiplayerType) -> (r: NetDirection)
    ensures
        mpt.spec_is_server() ==> r == NetDirection::To(CidSpec::All),
        !mpt.spec_is_server() ==> r == NetDirection::From(CidSpec::All),
{
    if mpt.is_server() {
        NetDirection::To(CidSpec::All)
    } else {
        NetDirection::From(CidSpec::All)
    }
}

/// A paddle's sync directive on a client playing side `me`: the peer is
/// authoritative for its own paddle and follows the other one.
pub fn client_paddle_dir(me: Team, paddle: Team) -> (r: NetDirection)
    ensures
        me == paddle ==> r == NetDirection::To(CidSpec::All),
        me != paddle ==> r == NetDirection::From(CidSpec::All),
{
    if me == paddle {
        NetDirection::To(CidSpec::All)
    } else {
        NetDirection::From(CidSpec::All)
    }
}

/// A paddle's sync directive on the server: relay what its owner sends to
/// everyone else — follow `Only(owner)`, publish to `Except(owner)`, two
/// specs that never overlap.
pub fn server_paddle_dir(owner: CId) -> (r: NetDirection)
    ensures
        r == NetDirection::ToFrom(CidSpec::Except(owner), CidSpec::Only(owner)),
        r.spec_valid_on(MultiplayerType::Server),
{
    let r = NetDirection::ToFrom(CidSpec::Except(owner), CidSpec::Only(owner));
    proof {
        assert forall|cid: CId|
            !(CidSpec::Except(owner).spec_matches(cid)
                && CidSpec::Only(owner).spec_matches(cid)) by {}
    }
    r
}

/// The win events a server tick derives from physics: one for each target
/// currently in collision with the ball, naming that target's opponent as
/// the winner, in target order.
pub open spec fn win_events(targets: Seq<(Target, Vec<u64>)>, ball: u64) -> Seq<Team>
    decreases targets.len(),
{
    if targets.len() == 0 {
        Seq::empty()
    } else {
        let rest = win_events(targets.drop_last(), ball);
        if targets.last().1@.contains(ball) {
            rest.push(targets.last().0.0.spec_other())
        } else {
            rest
        }
    }
}

/// Server-side win detection: each target is given with the set of entities
/// the physics engine reports in collision with it; a target touched by the
/// ball yields a win event for the opposing team.  Clients do not detect
/// wins — they receive the broadcast fact instead.
pub fn check_game_win(targets: &Vec<(Target, Vec<u64>)>, ball: u64) -> (wins: Vec<Team>)
    ensures
        wins@ == win_events(targets@, ball),
{
    let mut wins: Vec<Team> = Vec::new();
    let mut i: usize = 0;
    while i < targets.len()
        invariant
            i <= targets@.len(),
            wins@ == win_events(targets@.take(i as int), ball),
        decreases targets@.len() - i,
    {
        proof {
            assert(targets@.take(i + 1).drop_last() =~= targets@.take(i as int));
            assert(targets@.take(i + 1).last() == targets@[i as int]);
        }
        if contains_entity(&targets[i].1, ball) {
            let w = targets[i].0.0.other();
            wins.push(w);
        }
        i = i + 1;
    }
    proof {
        assert(targets@.take(targets@.len() as int) =~= targets@);
    }
    wins
}

/// Whether `e` occurs in `v`.
fn contains_entity(v: &Vec<u64>, e: u64) -> (r: bool)
    ensures
        r == v@.contains(e),
{
    let mut i: usize = 0;
    while i < v.len()
        invariant
            i <= v@.len(),
            forall|k: int| 0 <= k < i ==> v@[k] != e,
        decreases v@.len() - i,
    {
        if v[i] == e {
            return true;
        }
        i = i + 1;
    }
    false
}

/// The win events a server derives from a batch of disconnections: for
/// each departed connection id, in order, the loss of the left player
/// hands the win to the right team and the loss of the right player to the
/// left team.
pub open spec fn discon_wins(players: Players, discons: Seq<CId>) -> Seq<Team>
    decreases discons.len(),
{
    if discons.len() == 0 {
        Seq::empty()
    } else {
        let rest = discon_wins(players, discons.drop_last());
        let cid = discons.last();
        let w1: Seq<Team> = if players.p1 matches Some(p) && p.0 == cid {
            seq![Team::Right]
        } else {
            Seq::empty()
        };
        let w2: Seq<Team> = if players.p2 matches Some(p) && p.0 == cid {
            seq![Team::Left]
        } else {
            Seq::empty()
        };
        rest + w1 + w2
    }
}

/// Server-side handling of mid-game disconnections: given the connection
/// ids the transport reported gone this frame, synthesizes a win event for
/// the player that remains.  A departed id that is no registered player
/// yields nothing.
pub fn handle_discon(players: &Players, discons: &Vec<CId>) -> (wins: Vec<Team>)
    ensures
        wins@ == discon_wins(*players, discons@),
{
    let mut wins: Vec<Team> = Vec::new();
    let mut i: usize = 0;
    while i < discons.len()
        invariant
            i <= discons@.len(),
            wins@ == discon_wins(*players, discons@.take(i as int)),
        decreases discons@.len() - i,
    {
        proof {
            assert(discons@.take(i + 1).drop_last() =~= discons@.take(i as int));
            assert(discons@.take(i + 1).last() == discons@[i as int]);
        }
        let cid = discons[i];
        match &players.p1 {
            Some(p) => {
                if p.0 == cid {
                    wins.push(Team::Right);
                }
            },
            None => {},
        }
        match &players.p2 {
            Some(p) => {
                if p.0 == cid {
                    wins.push(Team::Left);
                }
            },
            None => {},
        }
        proof {
            let full = discon_wins(*players, discons@.take(i + 1));
            assert(wins@ =~= full);
        }
        i = i + 1;
    }
    proof {
        assert(discons@.take(discons@.len() as int) =~= discons@);
    }
    wins
}

/// The display name of the winning team's player.  Only called for a side
/// that is actually seated, which a win mid-game guarantees.
pub fn winner_name(players: &Players, winner: Team) -> (r: String)
    requires
        winner == Team::Left ==> players.p1 is Some,
        winner == Team::Right ==> players.p2 is Some,
    ensures
        winner == Team::Left ==> (players.p1 matches Some(p) && r == p.1),
        winner == Team::Right ==> (players.p2 matches Some(p) && r == p.1),
{
    match winner {
        Team::Left => {
            match &players.p1 {
                Some(p) => p.1.clone(),
                None => {
                    proof {
                        assert(false);
                    }
                    String::new()
                },
            }
        },
        Team::Right => {
            match &players.p2 {
                Some(p) => p.1.clone(),
                None => {
                    proof {
                        assert(false);
                    }
                    String::new()
                },
            }
        },
    }
}

/// The server's reply to a batch of latency probes: each probe is echoed
/// back, unmodified, to the connection it came from, in arrival order.
pub fn server_echo_pings(pings: &Vec<(CId, Ping)>) -> (out: Vec<(CId, Ping)>)
    ensures
        out@ == pings@,
{
    let mut out: Vec<(CId, Ping)> = Vec::new();
    let mut i: usize = 0;
    while i < pings.len()
        invariant
            i <= pings@.len(),
            out@ == pings@.take(i as int),
        decreases pings@.len() - i,
    {
        out.push(pings[i]);
        proof {
            assert(pings@.take(i + 1) =~= pings@.take(i as int).push(pings@[i as int]));
        }
        i = i + 1;
    }
    proof {
        assert(pings@.take(pings@.len() as int) =~= pings@);
    }
    out
}

/// What `ping_latency` computes: the elapsed time from `sent` to `now` on
/// a clock of truncated unix milliseconds, correct across one wrap of the
/// 32-bit counter.
pub open spec fn spec_latency(now: u32, sent: u32) -> int {
    if now >= sent {
        now - sent
    } else {
        now + 0x1_0000_0000 - sent
    }
}

/// The effective latency a client displays when a probe stamped `sent`
/// comes back at local time `now`.
pub fn ping_latency(now: u32, sent: u32) -> (r: u32)
    ensures
        r == spec_latency(now, sent),
{
    if now >= sent {
        now - sent
    } else {
        let wide: u64 = now as u64 + 0x1_0000_0000u64 - sent as u64;
        wide as u32
    }
}

} // verus!
