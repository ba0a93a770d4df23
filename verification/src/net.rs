//! Peer addressing and per-field synchronization directives.
//!
//! A [`CidSpec`] is a predicate over connection ids used to select the
//! subset of peers a message goes to, or is accepted from.  A
//! [`NetDirection`] says, for one replicated field, which way values flow;
//! a [`NetEntity`] carries the stable 64-bit object id that correlates the
//! field across peers; and a [`NetCompMsg`] is the wire envelope pairing
//! that id with one field value.

use vstd::prelude::*;

use crate::MultiplayerType;

verus! {

/// A connection id: the opaque identifier the server assigns to each
/// accepted connection.
pub type CId = u32;

/// A predicate over connection ids.
#[derive(Copy, Clone, Eq, PartialEq, Structural, Debug, Hash)]
pub enum CidSpec {
    /// Matches every connection id.
    All,
    /// Matches exactly the inner connection id.
    Only(CId),
    /// Matches every connection id but the inner one.
    Except(CId),
}

impl CidSpec {
    /// What `matches` decides.
    pub open spec fn spec_matches(self, cid: CId) -> bool {
        match self {
            CidSpec::All => true,
            CidSpec::Only(o) => cid == o,
            CidSpec::Except(o) => cid != o,
        }
    }

    /// Whether `cid` is selected: `All` matches every id, `Only(o)` exactly
    /// `o`, and `Except(o)` everything but `o`.
    pub fn matches(&self, cid: CId) -> (r: bool)
        ensures
            r == self.spec_matches(cid),
    {
        match self {
            CidSpec::All => true,
            CidSpec::Only(o) => cid == *o,
            CidSpec::Except(o) => cid != *o,
        }
    }

    /// What `overlaps` decides: some connection id is matched by both
    /// predicates.
    pub open spec fn spec_overlaps(self, other: CidSpec) -> bool {
        exists|cid: CId| self.spec_matches(cid) && other.spec_matches(cid)
    }

    /// Whether the two predicates share at least one common connection id.
    pub fn overlaps(&self, other: &CidSpec) -> (r: bool)
        ensures
            r == self.spec_overlaps(*other),
    {
        match (self, other) {
            (CidSpec::Only(a), CidSpec::Only(b)) => {
                proof {
                    if a == b {
                        assert(self.spec_matches(*a) && other.spec_matches(*a));
                    }
                }
                *a == *b
            },
            (CidSpec::Only(a), CidSpec::Except(b)) => {
                proof {
                    if a != b {
                        assert(self.spec_matches(*a) && other.spec_matches(*a));
                    }
                }
                *a != *b
            },
            (CidSpec::Except(a), CidSpec::Only(b)) => {
                proof {
                    if a != b {
                        assert(self.spec_matches(*b) && other.spec_matches(*b));
                    }
                }
                *a != *b
            },
            (CidSpec::Except(a), CidSpec::Except(b)) => {
                let w = distinct_from(*a, *b);
                proof {
                    assert(self.spec_matches(w) && other.spec_matches(w));
                }
                true
            },
            (CidSpec::All, o) => {
                let w = match o {
                    CidSpec::All => 0,
                    CidSpec::Only(b) => *b,
                    CidSpec::Except(b) => distinct_from(*b, *b),
                };
                proof {
                    assert(self.spec_matches(w) && other.spec_matches(w));
                }
                true
            },
            (o, CidSpec::All) => {
                let w = match o {
                    CidSpec::All => 0,
                    CidSpec::Only(b) => *b,
                    CidSpec::Except(b) => distinct_from(*b, *b),
                };
                proof {
                    assert(self.spec_matches(w) && other.spec_matches(w));
                }
                true
            },
        }
    }
}

/// The addressing predicates over every possible peer id: `All` matches
/// every id, `Only(x)` matches exactly `x`, and `Except(x)` matches
/// everything but `x`.
pub proof fn lemma_matches_cases(cid: CId)
    ensures
        CidSpec::All.spec_matches(cid),
        forall|x: CId| #[trigger] CidSpec::Only(x).spec_matches(cid) <==> cid == x,
        forall|x: CId| #[trigger] CidSpec::Except(x).spec_matches(cid) <==> cid != x,
{
}

/// A connection id different from both arguments.
fn distinct_from(a: CId, b: CId) -> (r: CId)
    ensures
        r != a,
        r != b,
{
    if a != 0 && b != 0 {
        0
    } else if a != 1 && b != 1 {
        1
    } else {
        2
    }
}

/// The synchronizing direction for one replicated field.
#[derive(Copy, Clone, Eq, PartialEq, Structural, Debug, Hash)]
pub enum NetDirection {
    /// This peer is authoritative for the field: each tick it publishes the
    /// current local value to the peers matched by the spec.
    To(CidSpec),
    /// This peer follows: each tick it overwrites the local field with the
    /// most recently arrived value accepted from the spec.
    From(CidSpec),
    /// Hub only: publish to the first spec while following the second.
    /// Not valid on a pure client, and the two specs must not overlap.
    ToFrom(CidSpec, CidSpec),
}

impl NetDirection {
    /// What `valid_on` decides: `To` and `From` are valid everywhere, while
    /// `ToFrom` needs a server-capable holder and non-overlapping specs (an
    /// overlap would feed an object its own echoed value).
    pub open spec fn spec_valid_on(self, mpt: MultiplayerType) -> bool {
        match self {
            NetDirection::ToFrom(to, from) => mpt.spec_is_server() && !to.spec_overlaps(from),
            _ => true,
        }
    }

    /// Whether this directive is a valid configuration on a peer of role
    /// `mpt`.  An invalid directive is a startup configuration fault.
    pub fn valid_on(&self, mpt: &MultiplayerType) -> (r: bool)
        ensures
            r == self.spec_valid_on(*mpt),
    {
        match self {
            NetDirection::ToFrom(to, from) => mpt.is_server() && !to.overlaps(from),
            _ => true,
        }
    }
}

/// A networked entity: carries the stable object id, assigned once at
/// creation by the canonical creator, that must be the same on every
/// connected instance of the game.
#[derive(Copy, Clone, Eq, PartialEq, Structural, Debug, Hash)]
pub struct NetEntity {
    /// The session-wide 64-bit correlation id.
    pub id: u64,
}

impl NetEntity {
    /// A networked entity with the given object id.
    pub fn new(id: u64) -> (r: NetEntity)
        ensures
            r.id == id,
    {
        NetEntity { id }
    }
}

/// Marks one field of one object for synchronization in the given
/// direction.  The direction never changes after creation.
#[derive(Copy, Clone, Eq, PartialEq, Structural, Debug, Hash)]
pub struct NetComp {
    /// Which way values for this field flow.
    pub dir: NetDirection,
}

impl NetComp {
    /// A sync directive with the given direction.
    pub fn new(dir: NetDirection) -> (r: NetComp)
        ensures
            r.dir == dir,
    {
        NetComp { dir }
    }
}

impl Default for NetComp {
    /// The default directive follows everyone: `From(All)`.
    fn default() -> (r: NetComp)
        ensures
            r.dir == NetDirection::From(CidSpec::All),
    {
        NetComp { dir: NetDirection::From(CidSpec::All) }
    }
}

/// The wire envelope for one replicated field value: the payload tagged
/// with the object id it belongs to.
#[derive(Copy, Clone, Eq, PartialEq, Debug)]
pub struct NetCompMsg<M> {
    /// The object id the payload belongs to.
    pub id: u64,
    /// The field value, in wire representation.
    pub msg: M,
}

impl<M> NetCompMsg<M> {
    /// An envelope carrying `msg` for the object with id `id`.
    pub fn new(id: u64, msg: M) -> (r: NetCompMsg<M>)
        ensures
            r.id == id,
            r.msg == msg,
    {
        NetCompMsg { id, msg }
    }
}

} // verus!
