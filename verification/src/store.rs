//! The agent store: fixed-capacity arrays of boids, predators and
//! their pursuit and capture state, with snapshot and restore.

use vstd::prelude::*;

verus! {

use crate::{COORD_LIMIT, MAX_AGENTS, NO_TARGET};
use crate::vecmath::Vec2i;

/// One agent, boid or predator: a position on the unbounded integer
/// plane and a separately stored velocity.
#[derive(Clone, Copy, PartialEq, Eq, Structural, Debug)]
pub struct Agent {
    pub pos: Vec2i,
    pub vel: Vec2i,
}

impl Agent {
    /// Position and velocity fit the machine coordinate range.
    pub open spec fn bounded(self) -> bool {
        self.pos.bounded(COORD_LIMIT as int) && self.vel.bounded(COORD_LIMIT as int)
    }

}

/// Every agent in the sequence is bounded.
pub open spec fn all_bounded(s: Seq<Agent>) -> bool {
    forall|i: int| 0 <= i < s.len() ==> #[trigger] s[i].bounded()
}

/// Every target is the sentinel or a boid index below `n`.
pub open spec fn targets_in_range(t: Seq<u32>, n: int) -> bool {
    forall|p: int| 0 <= p < t.len() ==> (#[trigger] t[p] == NO_TARGET || t[p] < n)
}

/// Fixed-capacity storage of every per-agent array: boid and predator
/// positions and velocities, per-predator pursuit targets and capture
/// counters, and per-boid captured flags.  Allocated once; no operation
/// on it changes a length.
pub struct AgentStore {
    pub boids: Vec<Agent>,
    pub predators: Vec<Agent>,
    pub captured: Vec<bool>,
    pub targets: Vec<u32>,
    pub captures: Vec<u32>,
}

impl AgentStore {
    /// Well-formed store: auxiliary arrays match the agent counts, every
    /// agent is bounded, and every pursuit target is the sentinel or a
    /// live boid index.
    pub open spec fn wf(self) -> bool {
        &&& self.boids@.len() <= MAX_AGENTS
        &&& self.predators@.len() <= MAX_AGENTS
        &&& self.captured@.len() == self.boids@.len()
        &&& self.targets@.len() == self.predators@.len()
        &&& self.captures@.len() == self.predators@.len()
        &&& all_bounded(self.boids@)
        &&& all_bounded(self.predators@)
        &&& targets_in_range(self.targets@, self.boids@.len() as int)
    }

    /// Allocates a store of `n_boids` boids and `n_predators` predators,
    /// all at the origin and at rest, no boid captured, every predator
    /// without a target and with a zero capture counter.
    pub fn new(n_boids: usize, n_predators: usize) -> (r: AgentStore)
        requires
            n_boids <= MAX_AGENTS,
            n_predators <= MAX_AGENTS,
        ensures
            r.wf(),
            r.boids@.len() == n_boids,
            r.predators@.len() == n_predators,
            forall|i: int| 0 <= i < n_boids ==> #[trigger] r.boids@[i] == (Agent {
                pos: Vec2i { x: 0, y: 0 },
                vel: Vec2i { x: 0, y: 0 },
            }),
            forall|i: int| 0 <= i < n_predators ==> #[trigger] r.predators@[i] == (Agent {
                pos: Vec2i { x: 0, y: 0 },
                vel: Vec2i { x: 0, y: 0 },
            }),
            forall|i: int| 0 <= i < n_boids ==> !(#[trigger] r.captured@[i]),
            forall|p: int| 0 <= p < n_predators ==> #[trigger] r.targets@[p] == NO_TARGET,
            forall|p: int| 0 <= p < n_predators ==> #[trigger] r.captures@[p] == 0,
    {
        let zero = Agent { pos: Vec2i { x: 0, y: 0 }, vel: Vec2i { x: 0, y: 0 } };
        let mut boids: Vec<Agent> = Vec::new();
        let mut i: usize = 0;
        while i < n_boids
            invariant
                i <= n_boids,
                boids@.len() == i,
                forall|k: int| 0 <= k < i ==> #[trigger] boids@[k] == zero,
            decreases n_boids - i,
        {
            boids.push(zero);
            i = i + 1;
        }
        let mut captured: Vec<bool> = Vec::new();
        let mut i: usize = 0;
        while i < n_boids
            invariant
                i <= n_boids,
                captured@.len() == i,
                forall|k: int| 0 <= k < i ==> !(#[trigger] captured@[k]),
            decreases n_boids - i,
        {
            captured.push(false);
            i = i + 1;
        }
        let mut predators: Vec<Agent> = Vec::new();
        let mut i: usize = 0;
        while i < n_predators
            invariant
                i <= n_predators,
                predators@.len() == i,
                forall|k: int| 0 <= k < i ==> #[trigger] predators@[k] == zero,
            decreases n_predators - i,
        {
            predators.push(zero);
            i = i + 1;
        }
        let mut targets: Vec<u32> = Vec::new();
        let mut i: usize = 0;
        while i < n_predators
            invariant
                i <= n_predators,
                targets@.len() == i,
                forall|k: int| 0 <= k < i ==> #[trigger] targets@[k] == NO_TARGET,
            decreases n_predators - i,
        {
            targets.push(NO_TARGET);
            i = i + 1;
        }
        let mut captures: Vec<u32> = Vec::new();
        let mut i: usize = 0;
        while i < n_predators
            invariant
                i <= n_predators,
                captures@.len() == i,
                forall|k: int| 0 <= k < i ==> #[trigger] captures@[k] == 0,
            decreases n_predators - i,
        {
            captures.push(0);
            i = i + 1;
        }
        AgentStore { boids, predators, captured, targets, captures }
    }

    pub fn num_boids(&self) -> (n: usize)
        ensures
            n == self.boids@.len(),
    {
        self.boids.len()
    }

    pub fn num_predators(&self) -> (n: usize)
        ensures
            n == self.predators@.len(),
    {
        self.predators.len()
    }

    pub fn read_boid(&self, i: usize) -> (a: Agent)
        requires
            i < self.boids@.len(),
        ensures
            a == self.boids@[i as int],
    {
        self.boids[i]
    }

    /// Overwrites one boid slot; the agent must stay in the coordinate
    /// range so the store stays well formed.
    pub fn write_boid(&mut self, i: usize, a: Agent)
        requires
            i < old(self).boids@.len(),
            a.bounded(),
        ensures
            final(self).boids@ == old(self).boids@.update(i as int, a),
            final(self).predators@ == old(self).predators@,
            final(self).captured@ == old(self).captured@,
            final(self).targets@ == old(self).targets@,
            final(self).captures@ == old(self).captures@,
            old(self).wf() ==> final(self).wf(),
    {
        self.boids[i] = a;
        proof {
            assert(self.boids@ =~= old(self).boids@.update(i as int, a));
        }
    }

    pub fn read_predator(&self, p: usize) -> (a: Agent)
        requires
            p < self.predators@.len(),
        ensures
            a == self.predators@[p as int],
    {
        self.predators[p]
    }

    /// Overwrites one predator slot under the same bound as
    /// [`AgentStore::write_boid`].
    pub fn write_predator(&mut self, p: usize, a: Agent)
        requires
            p < old(self).predators@.len(),
            a.bounded(),
        ensures
            final(self).predators@ == old(self).predators@.update(p as int, a),
            final(self).boids@ == old(self).boids@,
            final(self).captured@ == old(self).captured@,
            final(self).targets@ == old(self).targets@,
            final(self).captures@ == old(self).captures@,
            old(self).wf() ==> final(self).wf(),
    {
        self.predators[p] = a;
        proof {
            assert(self.predators@ =~= old(self).predators@.update(p as int, a));
        }
    }

    pub fn is_captured(&self, i: usize) -> (c: bool)
        requires
            i < self.captured@.len(),
        ensures
            c == self.captured@[i as int],
    {
        self.captured[i]
    }

    pub fn target_of(&self, p: usize) -> (t: u32)
        requires
            p < self.targets@.len(),
        ensures
            t == self.targets@[p as int],
    {
        self.targets[p]
    }

    pub fn captures_of(&self, p: usize) -> (c: u32)
        requires
            p < self.captures@.len(),
        ensures
            c == self.captures@[p as int],
    {
        self.captures[p]
    }

    /// A point-in-time copy of the whole store, for the CPU-visible
    /// statistics mirror and for external inspection; reading it never
    /// mutates simulation state.
    pub fn snapshot(&self) -> (r: AgentStore)
        ensures
            r.boids@ == self.boids@,
            r.predators@ == self.predators@,
            r.captured@ == self.captured@,
            r.targets@ == self.targets@,
            r.captures@ == self.captures@,
    {
        AgentStore {
            boids: copy_agents(&self.boids),
            predators: copy_agents(&self.predators),
            captured: copy_bools(&self.captured),
            targets: copy_u32s(&self.targets),
            captures: copy_u32s(&self.captures),
        }
    }

    /// Restores a snapshot wholesale.
    pub fn restore(&mut self, snap: &AgentStore)
        ensures
            final(self).boids@ == snap.boids@,
            final(self).predators@ == snap.predators@,
            final(self).captured@ == snap.captured@,
            final(self).targets@ == snap.targets@,
            final(self).captures@ == snap.captures@,
    {
        self.boids = copy_agents(&snap.boids);
        self.predators = copy_agents(&snap.predators);
        self.captured = copy_bools(&snap.captured);
        self.targets = copy_u32s(&snap.targets);
        self.captures = copy_u32s(&snap.captures);
    }
}

pub(crate) fn copy_agents(v: &Vec<Agent>) -> (r: Vec<Agent>)
    ensures
        r@ == v@,
{
    let mut r: Vec<Agent> = Vec::new();
    let mut i: usize = 0;
    while i < v.len()
        invariant
            i <= v@.len(),
            r@ == v@.subrange(0, i as int),
        decreases v@.len() - i,
    {
        r.push(v[i]);
        proof {
            assert(r@ =~= v@.subrange(0, i + 1 as int));
        }
        i = i + 1;
    }
    proof {
        assert(r@ =~= v@);
    }
    r
}

pub(crate) fn copy_bools(v: &Vec<bool>) -> (r: Vec<bool>)
    ensures
        r@ == v@,
{
    let mut r: Vec<bool> = Vec::new();
    let mut i: usize = 0;
    while i < v.len()
        invariant
            i <= v@.len(),
            r@ == v@.subrange(0, i as int),
        decreases v@.len() - i,
    {
        r.push(v[i]);
        proof {
            assert(r@ =~= v@.subrange(0, i + 1 as int));
        }
        i = i + 1;
    }
    proof {
        assert(r@ =~= v@);
    }
    r
}

pub(crate) fn copy_u32s(v: &Vec<u32>) -> (r: Vec<u32>)
    ensures
        r@ == v@,
{
    let mut r: Vec<u32> = Vec::new();
    let mut i: usize = 0;
    while i < v.len()
        invariant
            i <= v@.len(),
            r@ == v@.subrange(0, i as int),
        decreases v@.len() - i,
    {
        r.push(v[i]);
        proof {
            assert(r@ =~= v@.subrange(0, i + 1 as int));
        }
        i = i + 1;
    }
    proof {
        assert(r@ =~= v@);
    }
    r
}

} // verus!
