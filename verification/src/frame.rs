//! The frame orchestrator: sequences the pursuit and flocking passes,
//! carries the parameter sets, drives the asynchronous statistics
//! readback without ever stalling, and feeds the renderer.

use vstd::prelude::*;

verus! {

use crate::{MAX_AGENTS, PARAM_LIMIT};
use crate::vecmath::Vec2i;
use crate::params::{
    default_area, default_boid_params, default_predator_params, default_view_params, view_map,
    view_map_spec, BoidParams, PredatorParams, Rect, ViewParams,
};
use crate::store::{copy_u32s, Agent, AgentStore};
use crate::init::{init_boids, init_predators, seeded_agent};
use crate::flocking::{flocking_boids_spec, flocking_pass};
use crate::pursuit::{
    pursuit_captured_spec, pursuit_captures_spec, pursuit_pass, pursuit_preds_spec,
    pursuit_targets_spec,
};

/// The settled capture range a simulation is created with, twenty
/// simulation units; it can be replaced at any time.
pub const DEFAULT_CAPTURE_RANGE: i64 = 20_000_000;

/// The state of the asynchronous statistics readback: a request is
/// either settled or in flight.  The frame loop never waits on one.
#[derive(Clone, Copy, PartialEq, Eq, Structural, Debug)]
pub enum ReadbackState {
    Idle,
    Pending,
}

/// The boid array one whole frame produces: the pursuit pass commits
/// first (its captures bind), then the flocking pass reads the
/// post-pursuit predators and captured flags.
pub open spec fn frame_boids_spec(
    s: AgentStore,
    bp: BoidParams,
    pp: PredatorParams,
    area: Rect,
    cap_r: int,
) -> Seq<Agent> {
    flocking_boids_spec(
        s.boids@,
        pursuit_captured_spec(s.boids@, s.captured@, s.targets@, s.predators@, pp, cap_r),
        pursuit_preds_spec(s.boids@, s.captured@, s.targets@, s.predators@, pp, area),
        bp,
        area,
    )
}

/// The whole per-frame simulation: an agent store, the parameter sets
/// the kernels read, the simulation rectangle and capture range, and
/// the asynchronous statistics mirror.
pub struct Simulation {
    pub store: AgentStore,
    pub boid_params: BoidParams,
    pub predator_params: PredatorParams,
    pub view_params: ViewParams,
    pub area: Rect,
    pub capture_range: i64,
    pub readback: ReadbackState,
    pub stats: Vec<u32>,
}

impl Simulation {
    /// Well-formed simulation: the store is well formed, every
    /// parameter set fits the machine bounds, and the statistics mirror
    /// covers every predator.
    pub open spec fn wf(self) -> bool {
        &&& self.store.wf()
        &&& self.boid_params.valid()
        &&& self.predator_params.valid()
        &&& self.view_params.valid()
        &&& self.area.valid()
        &&& -PARAM_LIMIT <= self.capture_range <= PARAM_LIMIT
        &&& self.stats@.len() == self.store.predators@.len()
    }

    /// Builds a simulation with the settled parameters and seeds every
    /// agent from `seed`: positions uniform over the area, velocities
    /// uniform over each parameter set's velocity span.
    pub fn new(n_boids: usize, n_predators: usize, seed: u64) -> (sim: Simulation)
        requires
            n_boids <= MAX_AGENTS,
            n_predators <= MAX_AGENTS,
        ensures
            sim.wf(),
            sim.store.boids@.len() == n_boids,
            sim.store.predators@.len() == n_predators,
            sim.boid_params == default_boid_params(),
            sim.predator_params == default_predator_params(),
            sim.view_params == default_view_params(),
            sim.area == default_area(),
            sim.capture_range == DEFAULT_CAPTURE_RANGE,
            sim.readback == ReadbackState::Idle,
            forall|i: int|
                0 <= i < n_boids ==> #[trigger] sim.store.boids@[i] == seeded_agent(
                    seed,
                    i,
                    default_area(),
                    default_boid_params().min_velocity as int,
                    default_boid_params().max_velocity as int,
                ),
            forall|p: int|
                0 <= p < n_predators ==> #[trigger] sim.store.predators@[p] == seeded_agent(
                    seed,
                    p + MAX_AGENTS,
                    default_area(),
                    default_predator_params().min_velocity as int,
                    default_predator_params().max_velocity as int,
                ),
            forall|i: int| 0 <= i < n_boids ==> !(#[trigger] sim.store.captured@[i]),
            forall|p: int| 0 <= p < n_predators ==> #[trigger] sim.store.targets@[p]
                == crate::NO_TARGET,
            forall|p: int| 0 <= p < n_predators ==> #[trigger] sim.store.captures@[p] == 0,
            forall|p: int| 0 <= p < n_predators ==> #[trigger] sim.stats@[p] == 0,
    {
        let boid_params = BoidParams::default();
        let predator_params = PredatorParams::default();
        let view_params = ViewParams::default();
        let area = Rect::default();
        let mut store = AgentStore::new(n_boids, n_predators);
        init_boids(&mut store, seed, area, boid_params);
        init_predators(&mut store, seed, area, predator_params);
        let stats = copy_u32s(&store.captures);
        Simulation {
            store,
            boid_params,
            predator_params,
            view_params,
            area,
            capture_range: DEFAULT_CAPTURE_RANGE,
            readback: ReadbackState::Idle,
            stats,
        }
    }

    /// Replaces the flocking parameters wholesale; the next pass reads
    /// the fully replaced set, never a torn one.
    pub fn set_boid_params(&mut self, p: BoidParams)
        requires
            old(self).wf(),
            p.valid(),
        ensures
            final(self).wf(),
            *final(self) == (Simulation { boid_params: p, ..*old(self) }),
    {
        self.boid_params = p;
    }

    /// Replaces the pursuit parameters wholesale.
    pub fn set_predator_params(&mut self, p: PredatorParams)
        requires
            old(self).wf(),
            p.valid(),
        ensures
            final(self).wf(),
            *final(self) == (Simulation { predator_params: p, ..*old(self) }),
    {
        self.predator_params = p;
    }

    /// Replaces the view transform wholesale; rendering alone changes.
    pub fn set_view_params(&mut self, p: ViewParams)
        requires
            old(self).wf(),
            p.valid(),
        ensures
            final(self).wf(),
            *final(self) == (Simulation { view_params: p, ..*old(self) }),
    {
        self.view_params = p;
    }

    /// Replaces the capture range.
    pub fn set_capture_range(&mut self, r: i64)
        requires
            old(self).wf(),
            -PARAM_LIMIT <= r <= PARAM_LIMIT,
        ensures
            final(self).wf(),
            *final(self) == (Simulation { capture_range: r, ..*old(self) }),
    {
        self.capture_range = r;
    }

    /// One whole frame of simulation: the pursuit pass, then the
    /// flocking pass, in that fixed order, each against the snapshot
    /// the previous pass committed.
    pub fn step_frame(&mut self)
        requires
            old(self).wf(),
        ensures
            final(self).wf(),
            final(self).store.boids@ == frame_boids_spec(
                old(self).store,
                old(self).boid_params,
                old(self).predator_params,
                old(self).area,
                old(self).capture_range as int,
            ),
            final(self).store.predators@ == pursuit_preds_spec(
                old(self).store.boids@,
                old(self).store.captured@,
                old(self).store.targets@,
                old(self).store.predators@,
                old(self).predator_params,
                old(self).area,
            ),
            final(self).store.targets@ == pursuit_targets_spec(
                old(self).store.boids@,
                old(self).store.captured@,
                old(self).store.targets@,
                old(self).store.predators@,
                old(self).predator_params,
                old(self).capture_range as int,
            ),
            final(self).store.captures@ == pursuit_captures_spec(
                old(self).store.boids@,
                old(self).store.captured@,
                old(self).store.targets@,
                old(self).store.predators@,
                old(self).store.captures@,
                old(self).predator_params,
                old(self).capture_range as int,
            ),
            final(self).store.captured@ == pursuit_captured_spec(
                old(self).store.boids@,
                old(self).store.captured@,
                old(self).store.targets@,
                old(self).store.predators@,
                old(self).predator_params,
                old(self).capture_range as int,
            ),
            forall|p: int|
                0 <= p < old(self).store.captures@.len()
                    ==> #[trigger] final(self).store.captures@[p] >= old(self).store.captures@[p],
            forall|b: int|
                0 <= b < old(self).store.captured@.len() && old(self).store.captured@[b]
                    ==> #[trigger] final(self).store.captured@[b],
            old(self).boid_params.min_velocity <= old(self).boid_params.max_velocity
                ==> forall|i: int|
                0 <= i < final(self).store.boids@.len() ==> old(self).boid_params.min_velocity
                    <= #[trigger] final(self).store.boids@[i].vel.x
                    <= old(self).boid_params.max_velocity && old(self).boid_params.min_velocity
                    <= final(self).store.boids@[i].vel.y <= old(self).boid_params.max_velocity,
            old(self).predator_params.min_velocity <= old(self).predator_params.max_velocity
                ==> forall|p: int|
                0 <= p < final(self).store.predators@.len()
                    ==> old(self).predator_params.min_velocity
                    <= #[trigger] final(self).store.predators@[p].vel.x
                    <= old(self).predator_params.max_velocity
                    && old(self).predator_params.min_velocity
                    <= final(self).store.predators@[p].vel.y
                    <= old(self).predator_params.max_velocity,
            final(self).boid_params == old(self).boid_params,
            final(self).predator_params == old(self).predator_params,
            final(self).view_params == old(self).view_params,
            final(self).area == old(self).area,
            final(self).capture_range == old(self).capture_range,
            final(self).readback == old(self).readback,
            final(self).stats@ == old(self).stats@,
    {
        let ghost pre = self.store;
        pursuit_pass(&mut self.store, self.predator_params, self.area, self.capture_range);
        let ghost mid = self.store;
        flocking_pass(&mut self.store, self.boid_params, self.area);
        proof {
            assert(mid.predators@ =~= pursuit_preds_spec(
                pre.boids@,
                pre.captured@,
                pre.targets@,
                pre.predators@,
                self.predator_params,
                self.area,
            ));
            assert(mid.targets@ =~= pursuit_targets_spec(
                pre.boids@,
                pre.captured@,
                pre.targets@,
                pre.predators@,
                self.predator_params,
                self.capture_range as int,
            ));
            assert(mid.captures@ =~= pursuit_captures_spec(
                pre.boids@,
                pre.captured@,
                pre.targets@,
                pre.predators@,
                pre.captures@,
                self.predator_params,
                self.capture_range as int,
            ));
            assert(mid.captured@ =~= pursuit_captured_spec(
                pre.boids@,
                pre.captured@,
                pre.targets@,
                pre.predators@,
                self.predator_params,
                self.capture_range as int,
            ));
            assert(self.store.boids@ =~= flocking_boids_spec(
                mid.boids@,
                mid.captured@,
                mid.predators@,
                self.boid_params,
                self.area,
            ));
        }
    }

    /// Requests a point-in-time readback of the capture counters.  The
    /// returned copy is what the transfer carries; an older request
    /// still in flight is dropped rather than ever stalling the frame
    /// loop.
    pub fn request_stats(&mut self) -> (r: Vec<u32>)
        requires
            old(self).wf(),
        ensures
            final(self).wf(),
            r@ == old(self).store.captures@,
            *final(self) == (Simulation { readback: ReadbackState::Pending, ..*old(self) }),
    {
        self.readback = ReadbackState::Pending;
        copy_u32s(&self.store.captures)
    }

    /// Settles an asynchronous readback: a delivered buffer of the
    /// right width replaces the statistics, anything else - a transfer
    /// failure or a stale width - keeps the last known good values.
    /// Either way the request is settled and the simulation is
    /// untouched.
    pub fn complete_stats(&mut self, outcome: Option<Vec<u32>>)
        requires
            old(self).wf(),
        ensures
            final(self).wf(),
            final(self).readback == ReadbackState::Idle,
            ({
                match outcome {
                    Some(v) => if v@.len() == old(self).store.predators@.len() {
                        final(self).stats@ == v@
                    } else {
                        final(self).stats@ == old(self).stats@
                    },
                    None => final(self).stats@ == old(self).stats@,
                }
            }),
            final(self).store == old(self).store,
            final(self).boid_params == old(self).boid_params,
            final(self).predator_params == old(self).predator_params,
            final(self).view_params == old(self).view_params,
            final(self).area == old(self).area,
            final(self).capture_range == old(self).capture_range,
    {
        self.readback = ReadbackState::Idle;
        match outcome {
            Some(v) => {
                if v.len() == self.store.predators.len() {
                    self.stats = v;
                }
            },
            None => {},
        }
    }

    /// The last known good capture counters, one per predator.
    pub fn stats(&self) -> (r: &Vec<u32>)
        ensures
            r@ == self.stats@,
    {
        &self.stats
    }

    /// Whether a statistics readback is still in flight.
    pub fn readback_pending(&self) -> (r: bool)
        ensures
            r == (self.readback == ReadbackState::Pending),
    {
        match self.readback {
            ReadbackState::Pending => true,
            ReadbackState::Idle => false,
        }
    }

    /// Every agent's position mapped through the view transform, boids
    /// first and then predators: the whole of rendering a frame is this
    /// pure function of the agent buffers.  Reading it never mutates
    /// simulation state.
    pub fn render_positions(&self) -> (r: Vec<Vec2i>)
        requires
            self.wf(),
        ensures
            r@.len() == self.store.boids@.len() + self.store.predators@.len(),
            forall|i: int|
                0 <= i < self.store.boids@.len() ==> #[trigger] r@[i] == view_map_spec(
                    self.store.boids@[i].pos,
                    self.view_params,
                ),
            forall|p: int|
                0 <= p < self.store.predators@.len() ==> #[trigger] r@[self.store.boids@.len()
                    + p] == view_map_spec(self.store.predators@[p].pos, self.view_params),
    {
        let nb: usize = self.store.boids.len();
        let np: usize = self.store.predators.len();
        let mut r: Vec<Vec2i> = Vec::new();
        let mut i: usize = 0;
        while i < nb
            invariant
                self.wf(),
                nb == self.store.boids@.len(),
                i <= nb,
                r@.len() == i,
                forall|k: int|
                    0 <= k < i ==> #[trigger] r@[k] == view_map_spec(
                        self.store.boids@[k].pos,
                        self.view_params,
                    ),
            decreases nb - i,
        {
            proof {
                assert(self.store.boids@[i as int].bounded());
            }
            let v = view_map(self.store.boids[i].pos, self.view_params);
            r.push(v);
            i = i + 1;
        }
        let mut p: usize = 0;
        while p < np
            invariant
                self.wf(),
                nb == self.store.boids@.len(),
                np == self.store.predators@.len(),
                p <= np,
                r@.len() == nb + p,
                forall|k: int|
                    0 <= k < nb ==> #[trigger] r@[k] == view_map_spec(
                        self.store.boids@[k].pos,
                        self.view_params,
                    ),
                forall|k: int|
                    0 <= k < p ==> #[trigger] r@[nb + k] == view_map_spec(
                        self.store.predators@[k].pos,
                        self.view_params,
                    ),
            decreases np - p,
        {
            proof {
                assert(self.store.predators@[p as int].bounded());
            }
            let v = view_map(self.store.predators[p].pos, self.view_params);
            r.push(v);
            p = p + 1;
        }
        r
    }
}

/// One whole frame at the specification level, over bare arrays:
/// `(boids, captured, targets, predators, captures)` in, the same
/// bundle out, pursuit first and flocking second.
pub open spec fn frame_state_spec(
    st: (Seq<Agent>, Seq<bool>, Seq<u32>, Seq<Agent>, Seq<u32>),
    bp: BoidParams,
    pp: PredatorParams,
    area: Rect,
    cap_r: int,
) -> (Seq<Agent>, Seq<bool>, Seq<u32>, Seq<Agent>, Seq<u32>) {
    let (boids, captured, targets, preds, caps) = st;
    let preds2 = pursuit_preds_spec(boids, captured, targets, preds, pp, area);
    let captured2 = pursuit_captured_spec(boids, captured, targets, preds, pp, cap_r);
    let targets2 = pursuit_targets_spec(boids, captured, targets, preds, pp, cap_r);
    let caps2 = pursuit_captures_spec(boids, captured, targets, preds, caps, pp, cap_r);
    let boids2 = flocking_boids_spec(boids, captured2, preds2, bp, area);
    (boids2, captured2, targets2, preds2, caps2)
}

/// `n` frames of simulation, iterated from a starting bundle.
pub open spec fn run_spec(
    st: (Seq<Agent>, Seq<bool>, Seq<u32>, Seq<Agent>, Seq<u32>),
    bp: BoidParams,
    pp: PredatorParams,
    area: Rect,
    cap_r: int,
    n: nat,
) -> (Seq<Agent>, Seq<bool>, Seq<u32>, Seq<Agent>, Seq<u32>)
    decreases n,
{
    if n == 0 {
        st
    } else {
        frame_state_spec(run_spec(st, bp, pp, area, cap_r, (n - 1) as nat), bp, pp, area, cap_r)
    }
}

/// Capture monotonicity across frames: over any run, no predator's
/// capture counter ever decreases, and a boid's captured flag, once
/// set, is never cleared.
pub proof fn lemma_run_capture_monotone(
    st: (Seq<Agent>, Seq<bool>, Seq<u32>, Seq<Agent>, Seq<u32>),
    bp: BoidParams,
    pp: PredatorParams,
    area: Rect,
    cap_r: int,
    n: nat,
)
    requires
        st.1.len() == st.0.len(),
    ensures
        run_spec(st, bp, pp, area, cap_r, n).0.len() == st.0.len(),
        run_spec(st, bp, pp, area, cap_r, n).1.len() == st.1.len(),
        run_spec(st, bp, pp, area, cap_r, n).4.len() == st.4.len(),
        forall|p: int|
            0 <= p < st.4.len() ==> #[trigger] run_spec(st, bp, pp, area, cap_r, n).4[p]
                >= st.4[p],
        forall|b: int|
            0 <= b < st.1.len() && st.1[b] ==> #[trigger] run_spec(st, bp, pp, area, cap_r, n).1[b],
    decreases n,
{
    if n > 0 {
        lemma_run_capture_monotone(st, bp, pp, area, cap_r, (n - 1) as nat);
    }
}

/// Determinism: a frame is a function of the snapshot and the
/// parameter sets alone.  Two stores holding identical arrays produce
/// identical arrays again, however the units of work inside a pass
/// were ordered - the kernels only ever read the pre-pass snapshot.
pub proof fn lemma_frame_deterministic(
    s1: AgentStore,
    s2: AgentStore,
    bp: BoidParams,
    pp: PredatorParams,
    area: Rect,
    cap_r: int,
)
    requires
        s1.boids@ == s2.boids@,
        s1.predators@ == s2.predators@,
        s1.captured@ == s2.captured@,
        s1.targets@ == s2.targets@,
        s1.captures@ == s2.captures@,
    ensures
        frame_boids_spec(s1, bp, pp, area, cap_r) == frame_boids_spec(s2, bp, pp, area, cap_r),
        pursuit_preds_spec(s1.boids@, s1.captured@, s1.targets@, s1.predators@, pp, area)
            == pursuit_preds_spec(s2.boids@, s2.captured@, s2.targets@, s2.predators@, pp, area),
        pursuit_targets_spec(s1.boids@, s1.captured@, s1.targets@, s1.predators@, pp, cap_r)
            == pursuit_targets_spec(s2.boids@, s2.captured@, s2.targets@, s2.predators@, pp, cap_r),
        pursuit_captures_spec(
            s1.boids@,
            s1.captured@,
            s1.targets@,
            s1.predators@,
            s1.captures@,
            pp,
            cap_r,
        ) == pursuit_captures_spec(
            s2.boids@,
            s2.captured@,
            s2.targets@,
            s2.predators@,
            s2.captures@,
            pp,
            cap_r,
        ),
        pursuit_captured_spec(s1.boids@, s1.captured@, s1.targets@, s1.predators@, pp, cap_r)
            == pursuit_captured_spec(s2.boids@, s2.captured@, s2.targets@, s2.predators@, pp, cap_r),
{
}

} // verus!
