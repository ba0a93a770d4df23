//! The bricks, and the brick-break event channel.
//!
//! Bricks are world-mutating facts carried over the reliable class: the
//! server observes ball/brick collisions, destroys the brick locally and
//! broadcasts its id; a client applies the fact by id-based matching
//! against the bricks it still knows.  A break for a brick that is
//! already gone — a duplicate delivery, or a race with local removal —
//! is a no-op, never an error: applying the same break events twice
//! changes nothing beyond the first application.

use vstd::prelude::*;

verus! {

/// A brick that is destroyed when the ball hits it, named by its stable
/// id.
#[derive(Copy, Clone, Eq, PartialEq, Structural, Debug, Hash)]
pub struct Brick(pub u32);

/// The live bricks of one peer's world.  Each entry pairs the engine's
/// entity handle with the brick's id; both are unique among live bricks.
#[derive(Clone, PartialEq, Eq, Debug)]
pub struct Bricks {
    /// The live bricks, as (entity handle, brick id).
    pub bricks: Vec<(u64, u32)>,
}

/// Pairwise-distinct entity handles and brick ids.
pub open spec fn distinct_bricks(s: Seq<(u64, u32)>) -> bool {
    forall|i: int, j: int|
        0 <= i < j < s.len() ==> (#[trigger] s[i]).0 != (#[trigger] s[j]).0 && s[i].1 != s[j].1
}

/// Whether some live brick uses the entity handle `e`.
pub open spec fn has_entity(s: Seq<(u64, u32)>, e: u64) -> bool {
    exists|i: int| 0 <= i < s.len() && (#[trigger] s[i]).0 == e
}

/// The index of the live brick with entity handle `e`.
pub open spec fn index_of_entity(s: Seq<(u64, u32)>, e: u64) -> int {
    choose|i: int| 0 <= i < s.len() && (#[trigger] s[i]).0 == e
}

/// The bricks of `s` that survive the break events `ids`, in order: a
/// brick survives exactly when its id is not named.
pub open spec fn surviving(s: Seq<(u64, u32)>, ids: Seq<u32>) -> Seq<(u64, u32)>
    decreases s.len(),
{
    if s.len() == 0 {
        Seq::empty()
    } else {
        let rest = surviving(s.drop_last(), ids);
        if ids.contains(s.last().1) {
            rest
        } else {
            rest.push(s.last())
        }
    }
}

/// One collision pair applied to the live bricks: if one side is the ball
/// and the other a live brick, that brick is removed and its id broken;
/// any other pair changes nothing.
pub open spec fn collide_step(s: Seq<(u64, u32)>, ball: u64, pair: (u64, u64)) -> (
    Seq<(u64, u32)>,
    Seq<u32>,
) {
    if pair.0 == ball && has_entity(s, pair.1) {
        let i = index_of_entity(s, pair.1);
        (s.remove(i), seq![s[i].1])
    } else if pair.1 == ball && has_entity(s, pair.0) {
        let i = index_of_entity(s, pair.0);
        (s.remove(i), seq![s[i].1])
    } else {
        (s, Seq::empty())
    }
}

/// A frame's collision pairs applied in order: the resulting live bricks,
/// and the broken ids to broadcast.
pub open spec fn collide_all(s: Seq<(u64, u32)>, ball: u64, cols: Seq<(u64, u64)>) -> (
    Seq<(u64, u32)>,
    Seq<u32>,
)
    decreases cols.len(),
{
    if cols.len() == 0 {
        (s, Seq::empty())
    } else {
        let prev = collide_all(s, ball, cols.drop_last());
        let step = collide_step(prev.0, ball, cols.last());
        (step.0, prev.1 + step.1)
    }
}

impl Bricks {
    /// The brick field at world setup: the spawned entities are numbered
    /// left to right with sequential ids, identically on every peer.
    pub fn grid(entities: &Vec<u64>) -> (r: Bricks)
        requires
            forall|i: int, j: int|
                0 <= i < j < entities@.len() ==> entities@[i] != entities@[j],
            entities@.len() < 0x1_0000_0000,
        ensures
            r.bricks@.len() == entities@.len(),
            forall|k: int|
                0 <= k < entities@.len() ==> (#[trigger] r.bricks@[k]) == (entities@[k], k as u32),
            distinct_bricks(r.bricks@),
    {
        let mut bricks: Vec<(u64, u32)> = Vec::new();
        let mut i: usize = 0;
        while i < entities.len()
            invariant
                i <= entities@.len(),
                entities@.len() < 0x1_0000_0000,
                bricks@.len() == i,
                forall|k: int| 0 <= k < i ==> (#[trigger] bricks@[k]) == (entities@[k], k as u32),
            decreases entities@.len() - i,
        {
            bricks.push((entities[i], i as u32));
            i = i + 1;
        }
        let r = Bricks { bricks };
        proof {
            assert forall|i: int, j: int| 0 <= i < j < r.bricks@.len() implies (
            #[trigger] r.bricks@[i]).0 != (#[trigger] r.bricks@[j]).0 && r.bricks@[i].1
                != r.bricks@[j].1 by {
                assert(entities@[i] != entities@[j]);
            }
        }
        r
    }

    /// The index of the live brick using entity handle `e`, if any.
    fn find_entity(&self, e: u64) -> (r: Option<usize>)
        ensures
            r matches Some(j) ==> j < self.bricks@.len() && self.bricks@[j as int].0 == e,
            r is None ==> !has_entity(self.bricks@, e),
    {
        let mut i: usize = 0;
        while i < self.bricks.len()
            invariant
                i <= self.bricks@.len(),
                forall|k: int| 0 <= k < i ==> (#[trigger] self.bricks@[k]).0 != e,
            decreases self.bricks@.len() - i,
        {
            if self.bricks[i].0 == e {
                return Some(i);
            }
            i = i + 1;
        }
        None
    }

    /// The server side of brick breaking: walks this frame's collision
    /// pairs in order; whenever one side is the ball and the other a live
    /// brick, the brick is destroyed locally and its id appended to the
    /// returned broadcast list.  The ball itself is no brick, so a
    /// ball-only pair changes nothing.
    pub fn server_collide(&mut self, ball: u64, collisions: &Vec<(u64, u64)>) -> (broken: Vec<u32>)
        requires
            distinct_bricks(old(self).bricks@),
            !has_entity(old(self).bricks@, ball),
        ensures
            final(self).bricks@ == collide_all(old(self).bricks@, ball, collisions@).0,
            broken@ == collide_all(old(self).bricks@, ball, collisions@).1,
            distinct_bricks(final(self).bricks@),
    {
        let mut broken: Vec<u32> = Vec::new();
        let mut i: usize = 0;
        while i < collisions.len()
            invariant
                i <= collisions@.len(),
                self.bricks@ == collide_all(old(self).bricks@, ball, collisions@.take(i as int)).0,
                broken@ == collide_all(old(self).bricks@, ball, collisions@.take(i as int)).1,
                distinct_bricks(self.bricks@),
                !has_entity(self.bricks@, ball),
            decreases collisions@.len() - i,
        {
            proof {
                assert(collisions@.take(i + 1).drop_last() =~= collisions@.take(i as int));
                assert(collisions@.take(i + 1).last() == collisions@[i as int]);
            }
            let pair = collisions[i];
            let ghost prev = self.bricks@;
            if pair.0 == ball {
                if let Some(j) = self.find_entity(pair.1) {
                    let id = self.bricks[j].1;
                    proof {
                        let w = index_of_entity(prev, pair.1);
                        assert(0 <= w < prev.len() && prev[w].0 == pair.1);
                        assert(w == j);
                    }
                    self.bricks.remove(j);
                    broken.push(id);
                    proof {
                        lemma_remove_keeps_distinct(prev, j as int);
                        lemma_remove_keeps_absent(prev, j as int, ball);
                    }
                }
            } else if pair.1 == ball {
                if let Some(j) = self.find_entity(pair.0) {
                    let id = self.bricks[j].1;
                    proof {
                        let w = index_of_entity(prev, pair.0);
                        assert(0 <= w < prev.len() && prev[w].0 == pair.0);
                        assert(w == j);
                    }
                    self.bricks.remove(j);
                    broken.push(id);
                    proof {
                        lemma_remove_keeps_distinct(prev, j as int);
                        lemma_remove_keeps_absent(prev, j as int, ball);
                    }
                }
            }
            proof {
                let full = collide_all(old(self).bricks@, ball, collisions@.take(i + 1));
                assert(self.bricks@ =~= full.0);
                assert(broken@ =~= full.1);
            }
            i = i + 1;
        }
        proof {
            assert(collisions@.take(collisions@.len() as int) =~= collisions@);
        }
        broken
    }

    /// The client side of brick breaking: applies a frame's received
    /// break events by id, destroying every named brick that is still
    /// alive and ignoring ids that match nothing.
    pub fn client_break(&mut self, ids: &Vec<u32>)
        ensures
            final(self).bricks@ == surviving(old(self).bricks@, ids@),
            distinct_bricks(old(self).bricks@) ==> distinct_bricks(final(self).bricks@),
    {
        let mut kept: Vec<(u64, u32)> = Vec::new();
        let mut i: usize = 0;
        while i < self.bricks.len()
            invariant
                i <= self.bricks@.len(),
                self.bricks@ == old(self).bricks@,
                kept@ == surviving(self.bricks@.take(i as int), ids@),
            decreases self.bricks@.len() - i,
        {
            proof {
                assert(self.bricks@.take(i + 1).drop_last() =~= self.bricks@.take(i as int));
                assert(self.bricks@.take(i + 1).last() == self.bricks@[i as int]);
            }
            let b = self.bricks[i];
            if !contains_id(ids, b.1) {
                kept.push(b);
            }
            i = i + 1;
        }
        proof {
            assert(self.bricks@.take(self.bricks@.len() as int) =~= self.bricks@);
        }
        self.bricks = kept;
        proof {
            if distinct_bricks(old(self).bricks@) {
                lemma_surviving_distinct(old(self).bricks@, ids@);
            }
        }
    }
}

/// Whether `x` occurs in `v`.
fn contains_id(v: &Vec<u32>, x: u32) -> (r: bool)
    ensures
        r == v@.contains(x),
{
    let mut i: usize = 0;
    while i < v.len()
        invariant
            i <= v@.len(),
            forall|k: int| 0 <= k < i ==> v@[k] != x,
        decreases v@.len() - i,
    {
        if v[i] == x {
            return true;
        }
        i = i + 1;
    }
    false
}

proof fn lemma_remove_keeps_distinct(s: Seq<(u64, u32)>, j: int)
    requires
        distinct_bricks(s),
        0 <= j < s.len(),
    ensures
        distinct_bricks(s.remove(j)),
{
    s.remove_ensures(j);
    let r = s.remove(j);
    assert forall|a: int, b: int| 0 <= a < b < r.len() implies (#[trigger] r[a]).0 != (
    #[trigger] r[b]).0 && r[a].1 != r[b].1 by {
        let sa: int = if a < j {
            a
        } else {
            a + 1
        };
        let sb: int = if b < j {
            b
        } else {
            b + 1
        };
        assert(r[a] == s[sa]);
        assert(r[b] == s[sb]);
    }
}

proof fn lemma_remove_keeps_absent(s: Seq<(u64, u32)>, j: int, e: u64)
    requires
        !has_entity(s, e),
        0 <= j < s.len(),
    ensures
        !has_entity(s.remove(j), e),
{
    s.remove_ensures(j);
    let r = s.remove(j);
    assert forall|i: int| 0 <= i < r.len() implies (#[trigger] r[i]).0 != e by {
        let si: int = if i < j {
            i
        } else {
            i + 1
        };
        assert(r[i] == s[si]);
    }
}

/// Every survivor was a live brick whose id the events did not name, and
/// every such brick survives: break events touch exactly the bricks they
/// name, and an id that matches nothing is a no-op.
pub proof fn lemma_surviving_membership(s: Seq<(u64, u32)>, ids: Seq<u32>)
    ensures
        forall|b: (u64, u32)|
            #[trigger] surviving(s, ids).contains(b) <==> (s.contains(b) && !ids.contains(b.1)),
    decreases s.len(),
{
    if s.len() == 0 {
        assert forall|b: (u64, u32)| !(#[trigger] surviving(s, ids).contains(b)) by {
            assert(surviving(s, ids).len() == 0);
        }
        assert forall|b: (u64, u32)| !(#[trigger] s.contains(b)) by {}
    } else {
        lemma_surviving_membership(s.drop_last(), ids);
        let rest = surviving(s.drop_last(), ids);
        let last = s.last();
        assert forall|b: (u64, u32)|
            #[trigger] surviving(s, ids).contains(b) <==> (s.contains(b) && !ids.contains(
                b.1,
            )) by {
            if surviving(s, ids).contains(b) {
                let w = choose|w: int|
                    0 <= w < surviving(s, ids).len() && surviving(s, ids)[w] == b;
                if ids.contains(last.1) {
                    assert(rest[w] == b);
                    assert(rest.contains(b));
                    lemma_drop_last_contains(s, b);
                } else {
                    if w < rest.len() {
                        assert(rest[w] == b);
                        assert(rest.contains(b));
                        lemma_drop_last_contains(s, b);
                    } else {
                        assert(b == last);
                        assert(s[s.len() - 1] == b);
                        assert(s.contains(b));
                    }
                }
            }
            if s.contains(b) && !ids.contains(b.1) {
                let w = choose|w: int| 0 <= w < s.len() && s[w] == b;
                if w < s.len() - 1 {
                    assert(s.drop_last()[w] == b);
                    assert(s.drop_last().contains(b));
                    assert(rest.contains(b));
                    let v = choose|v: int| 0 <= v < rest.len() && rest[v] == b;
                    assert(surviving(s, ids)[v] == b);
                    assert(surviving(s, ids).contains(b));
                } else {
                    assert(b == last);
                    assert(surviving(s, ids) == rest.push(last));
                    assert(surviving(s, ids)[rest.len() as int] == b);
                    assert(surviving(s, ids).contains(b));
                }
            }
        }
    }
}

proof fn lemma_drop_last_contains(s: Seq<(u64, u32)>, b: (u64, u32))
    requires
        s.len() > 0,
        s.drop_last().contains(b),
    ensures
        s.contains(b),
{
    let w = choose|w: int| 0 <= w < s.drop_last().len() && s.drop_last()[w] == b;
    assert(s[w] == b);
}

proof fn lemma_surviving_distinct(s: Seq<(u64, u32)>, ids: Seq<u32>)
    requires
        distinct_bricks(s),
    ensures
        distinct_bricks(surviving(s, ids)),
    decreases s.len(),
{
    if s.len() > 0 {
        assert(distinct_bricks(s.drop_last()));
        lemma_surviving_distinct(s.drop_last(), ids);
        lemma_surviving_membership(s.drop_last(), ids);
        let rest = surviving(s.drop_last(), ids);
        let last = s.last();
        if !ids.contains(last.1) {
            assert forall|a: int, b: int|
                0 <= a < b < rest.push(last).len() implies (#[trigger] rest.push(last)[a]).0 != (
            #[trigger] rest.push(last)[b]).0 && rest.push(last)[a].1 != rest.push(last)[b].1 by {
                if b == rest.len() {
                    assert(rest.push(last)[a] == rest[a]);
                    assert(rest.contains(rest[a]));
                    assert(s.drop_last().contains(rest[a]));
                    let w = choose|w: int|
                        0 <= w < s.drop_last().len() && s.drop_last()[w] == rest[a];
                    assert(s[w] == rest[a]);
                    assert(s[s.len() - 1] == last);
                } else {
                    assert(rest.push(last)[a] == rest[a]);
                    assert(rest.push(last)[b] == rest[b]);
                }
            }
        }
    }
}

/// Idempotence of brick breaking: applying the same break events a second
/// time — or applying them after the bricks they name are already gone by
/// any other path — changes nothing beyond the first application.
pub proof fn lemma_break_idempotent(s: Seq<(u64, u32)>, ids: Seq<u32>)
    ensures
        surviving(surviving(s, ids), ids) == surviving(s, ids),
    decreases s.len(),
{
    if s.len() > 0 {
        lemma_break_idempotent(s.drop_last(), ids);
        let rest = surviving(s.drop_last(), ids);
        let last = s.last();
        if !ids.contains(last.1) {
            assert(rest.push(last).drop_last() =~= rest);
            assert(rest.push(last).last() == last);
        }
    }
}

/// Break events that name no live brick are a no-op: the world a second,
/// duplicate delivery meets is left exactly as it was.
pub proof fn lemma_break_absent(s: Seq<(u64, u32)>, ids: Seq<u32>)
    requires
        forall|k: int| 0 <= k < s.len() ==> !ids.contains((#[trigger] s[k]).1),
    ensures
        surviving(s, ids) == s,
    decreases s.len(),
{
    if s.len() > 0 {
        assert(forall|k: int|
            0 <= k < s.drop_last().len() ==> !ids.contains((#[trigger] s.drop_last()[k]).1));
        lemma_break_absent(s.drop_last(), ids);
        assert(!ids.contains(s.last().1)) by {
            assert(s[s.len() - 1] == s.last());
        }
        assert(surviving(s, ids) =~= s);
    }
}

} // verus!
