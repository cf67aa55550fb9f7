//! The flocking kernel: separation, alignment, cohesion, predator
//! avoidance, boundary turning, velocity clamping and integration for
//! every boid, each update a pure function of the pre-pass snapshot.

use vstd::prelude::*;

verus! {

use crate::{COORD_LIMIT, MAX_AGENTS, PARAM_LIMIT};
use crate::vecmath::{
    clamp_axis, clamp_spec, floor_div, lemma_avg_bounded, scaled_spec, scaled_term, within_range,
    within_range_exec, Vec2i,
};
use crate::params::{BoidParams, Rect};
use crate::store::{all_bounded, Agent, AgentStore};
use vstd::arithmetic::div_mod::lemma_div_of0;

/// What one boid has accumulated after scanning a prefix of its
/// neighbours: repulsion sums over protected-range neighbours, and
/// position/velocity sums with a count over visual-range neighbours.
pub struct NeighborAccum {
    pub sep_x: int,
    pub sep_y: int,
    pub cnt: int,
    pub pos_x: int,
    pub pos_y: int,
    pub vel_x: int,
    pub vel_y: int,
}

/// The neighbour scan of boid `i` over boids `0 .. k`: a captured boid
/// contributes nothing; one inside the protected range adds to the
/// repulsion sums; one merely inside the visual range joins the
/// position and velocity averages.
pub open spec fn neighbor_accum(
    boids: Seq<Agent>,
    captured: Seq<bool>,
    i: int,
    pr: int,
    vr: int,
    k: int,
) -> NeighborAccum
    decreases k,
{
    if k <= 0 {
        NeighborAccum { sep_x: 0, sep_y: 0, cnt: 0, pos_x: 0, pos_y: 0, vel_x: 0, vel_y: 0 }
    } else {
        let a = neighbor_accum(boids, captured, i, pr, vr, k - 1);
        let j = k - 1;
        if j == i || captured[j] {
            a
        } else {
            let me = boids[i];
            let o = boids[j];
            if within_range(me.pos, o.pos, pr) {
                NeighborAccum {
                    sep_x: a.sep_x + (me.pos.x - o.pos.x),
                    sep_y: a.sep_y + (me.pos.y - o.pos.y),
                    cnt: a.cnt,
                    pos_x: a.pos_x,
                    pos_y: a.pos_y,
                    vel_x: a.vel_x,
                    vel_y: a.vel_y,
                }
            } else if within_range(me.pos, o.pos, vr) {
                NeighborAccum {
                    sep_x: a.sep_x,
                    sep_y: a.sep_y,
                    cnt: a.cnt + 1,
                    pos_x: a.pos_x + o.pos.x,
                    pos_y: a.pos_y + o.pos.y,
                    vel_x: a.vel_x + o.vel.x,
                    vel_y: a.vel_y + o.vel.y,
                }
            } else {
                a
            }
        }
    }
}

/// The repulsion sum a point accumulates over the predators `0 .. k`
/// that sit inside its protected range.
pub struct AvoidAccum {
    pub x: int,
    pub y: int,
}

pub open spec fn avoid_accum(me: Vec2i, preds: Seq<Agent>, pr: int, k: int) -> AvoidAccum
    decreases k,
{
    if k <= 0 {
        AvoidAccum { x: 0, y: 0 }
    } else {
        let a = avoid_accum(me, preds, pr, k - 1);
        let o = preds[k - 1];
        if within_range(me, o.pos, pr) {
            AvoidAccum { x: a.x + (me.x - o.pos.x), y: a.y + (me.y - o.pos.y) }
        } else {
            a
        }
    }
}

/// Separation: repulsion away from protected-range neighbours.
pub open spec fn separation_x(boids: Seq<Agent>, captured: Seq<bool>, i: int, p: BoidParams) -> int {
    scaled_spec(
        p.self_avoid_factor as int,
        neighbor_accum(
            boids,
            captured,
            i,
            p.protected_range as int,
            p.visual_range as int,
            boids.len() as int,
        ).sep_x,
    )
}

pub open spec fn separation_y(boids: Seq<Agent>, captured: Seq<bool>, i: int, p: BoidParams) -> int {
    scaled_spec(
        p.self_avoid_factor as int,
        neighbor_accum(
            boids,
            captured,
            i,
            p.protected_range as int,
            p.visual_range as int,
            boids.len() as int,
        ).sep_y,
    )
}

/// Cohesion: attraction toward the average position of visual-range
/// neighbours; nothing when there is no such neighbour.
pub open spec fn cohesion_x(boids: Seq<Agent>, captured: Seq<bool>, i: int, p: BoidParams) -> int {
    let a = neighbor_accum(
        boids,
        captured,
        i,
        p.protected_range as int,
        p.visual_range as int,
        boids.len() as int,
    );
    if a.cnt > 0 {
        scaled_spec(p.centering_factor as int, a.pos_x / a.cnt - boids[i].pos.x)
    } else {
        0
    }
}

pub open spec fn cohesion_y(boids: Seq<Agent>, captured: Seq<bool>, i: int, p: BoidParams) -> int {
    let a = neighbor_accum(
        boids,
        captured,
        i,
        p.protected_range as int,
        p.visual_range as int,
        boids.len() as int,
    );
    if a.cnt > 0 {
        scaled_spec(p.centering_factor as int, a.pos_y / a.cnt - boids[i].pos.y)
    } else {
        0
    }
}

/// Alignment: steering toward the average velocity of visual-range
/// neighbours; nothing when there is no such neighbour.
pub open spec fn alignment_x(boids: Seq<Agent>, captured: Seq<bool>, i: int, p: BoidParams) -> int {
    let a = neighbor_accum(
        boids,
        captured,
        i,
        p.protected_range as int,
        p.visual_range as int,
        boids.len() as int,
    );
    if a.cnt > 0 {
        scaled_spec(p.matching_factor as int, a.vel_x / a.cnt - boids[i].vel.x)
    } else {
        0
    }
}

pub open spec fn alignment_y(boids: Seq<Agent>, captured: Seq<bool>, i: int, p: BoidParams) -> int {
    let a = neighbor_accum(
        boids,
        captured,
        i,
        p.protected_range as int,
        p.visual_range as int,
        boids.len() as int,
    );
    if a.cnt > 0 {
        scaled_spec(p.matching_factor as int, a.vel_y / a.cnt - boids[i].vel.y)
    } else {
        0
    }
}

/// Predator avoidance: repulsion away from every predator inside the
/// boid's protected range.
pub open spec fn predator_avoid_x(
    boids: Seq<Agent>,
    preds: Seq<Agent>,
    i: int,
    p: BoidParams,
) -> int {
    scaled_spec(
        p.predator_avoid_factor as int,
        avoid_accum(boids[i].pos, preds, p.protected_range as int, preds.len() as int).x,
    )
}

pub open spec fn predator_avoid_y(
    boids: Seq<Agent>,
    preds: Seq<Agent>,
    i: int,
    p: BoidParams,
) -> int {
    scaled_spec(
        p.predator_avoid_factor as int,
        avoid_accum(boids[i].pos, preds, p.protected_range as int, preds.len() as int).y,
    )
}

/// Boundary turning: a position past an edge of the simulation
/// rectangle earns `tf` toward the interior on that axis.
pub open spec fn turn_x(pos: Vec2i, area: Rect, tf: int) -> int {
    (if pos.x < area.left {
        tf
    } else {
        0
    }) + (if pos.x > area.right {
        -tf
    } else {
        0
    })
}

pub open spec fn turn_y(pos: Vec2i, area: Rect, tf: int) -> int {
    (if pos.y < area.bottom {
        tf
    } else {
        0
    }) + (if pos.y > area.top {
        -tf
    } else {
        0
    })
}

/// The unclamped velocity the flocking kernel steers boid `i` toward:
/// its old velocity plus every steering contribution.
pub open spec fn boid_raw_vel_x(
    boids: Seq<Agent>,
    captured: Seq<bool>,
    preds: Seq<Agent>,
    p: BoidParams,
    area: Rect,
    i: int,
) -> int {
    boids[i].vel.x + separation_x(boids, captured, i, p) + cohesion_x(boids, captured, i, p)
        + alignment_x(boids, captured, i, p) + predator_avoid_x(boids, preds, i, p) + turn_x(
        boids[i].pos,
        area,
        p.turn_factor as int,
    )
}

pub open spec fn boid_raw_vel_y(
    boids: Seq<Agent>,
    captured: Seq<bool>,
    preds: Seq<Agent>,
    p: BoidParams,
    area: Rect,
    i: int,
) -> int {
    boids[i].vel.y + separation_y(boids, captured, i, p) + cohesion_y(boids, captured, i, p)
        + alignment_y(boids, captured, i, p) + predator_avoid_y(boids, preds, i, p) + turn_y(
        boids[i].pos,
        area,
        p.turn_factor as int,
    )
}

/// The whole flocking update of boid `i`, as a function of the pre-pass
/// snapshot alone: steer, clamp each velocity axis to
/// `[min_velocity, max_velocity]`, then integrate the position one tick,
/// saturating at the coordinate range.
pub open spec fn boid_step_spec(
    boids: Seq<Agent>,
    captured: Seq<bool>,
    preds: Seq<Agent>,
    p: BoidParams,
    area: Rect,
    i: int,
) -> Agent {
    let vx = clamp_spec(
        boid_raw_vel_x(boids, captured, preds, p, area, i),
        p.min_velocity as int,
        p.max_velocity as int,
    );
    let vy = clamp_spec(
        boid_raw_vel_y(boids, captured, preds, p, area, i),
        p.min_velocity as int,
        p.max_velocity as int,
    );
    Agent {
        pos: Vec2i {
            x: clamp_spec(boids[i].pos.x + vx, -COORD_LIMIT as int, COORD_LIMIT as int) as i64,
            y: clamp_spec(boids[i].pos.y + vy, -COORD_LIMIT as int, COORD_LIMIT as int) as i64,
        },
        vel: Vec2i { x: vx as i64, y: vy as i64 },
    }
}

/// The whole flocking pass as one value: every boid mapped through its
/// kernel update against the same snapshot.
pub open spec fn flocking_boids_spec(
    boids: Seq<Agent>,
    captured: Seq<bool>,
    preds: Seq<Agent>,
    p: BoidParams,
    area: Rect,
) -> Seq<Agent> {
    Seq::new(boids.len(), |i: int| boid_step_spec(boids, captured, preds, p, area, i))
}

struct NeighborSums {
    sep_x: i128,
    sep_y: i128,
    cnt: usize,
    pos_x: i128,
    pos_y: i128,
    vel_x: i128,
    vel_y: i128,
}

/// The all-pairs neighbour scan for boid `i`, on machine integers.
fn scan_neighbors(
    boids: &Vec<Agent>,
    captured: &Vec<bool>,
    i: usize,
    pr: i64,
    vr: i64,
) -> (s: NeighborSums)
    requires
        captured@.len() == boids@.len(),
        boids@.len() <= MAX_AGENTS,
        all_bounded(boids@),
        i < boids@.len(),
        -PARAM_LIMIT <= pr <= PARAM_LIMIT,
        -PARAM_LIMIT <= vr <= PARAM_LIMIT,
    ensures
        ({
            let a = neighbor_accum(
                boids@,
                captured@,
                i as int,
                pr as int,
                vr as int,
                boids@.len() as int,
            );
            &&& s.sep_x as int == a.sep_x
            &&& s.sep_y as int == a.sep_y
            &&& s.cnt as int == a.cnt
            &&& s.pos_x as int == a.pos_x
            &&& s.pos_y as int == a.pos_y
            &&& s.vel_x as int == a.vel_x
            &&& s.vel_y as int == a.vel_y
        }),
        -2_000_000_000_000 * boids@.len() <= s.sep_x <= 2_000_000_000_000 * boids@.len(),
        -2_000_000_000_000 * boids@.len() <= s.sep_y <= 2_000_000_000_000 * boids@.len(),
        s.cnt <= boids@.len(),
        -1_000_000_000_000 * s.cnt <= s.pos_x <= 1_000_000_000_000 * s.cnt,
        -1_000_000_000_000 * s.cnt <= s.pos_y <= 1_000_000_000_000 * s.cnt,
        -1_000_000_000_000 * s.cnt <= s.vel_x <= 1_000_000_000_000 * s.cnt,
        -1_000_000_000_000 * s.cnt <= s.vel_y <= 1_000_000_000_000 * s.cnt,
{
    let n: usize = boids.len();
    let me: Agent = boids[i];
    let mut s = NeighborSums {
        sep_x: 0,
        sep_y: 0,
        cnt: 0,
        pos_x: 0,
        pos_y: 0,
        vel_x: 0,
        vel_y: 0,
    };
    let mut j: usize = 0;
    while j < n
        invariant
            n == boids@.len(),
            captured@.len() == boids@.len(),
            n <= MAX_AGENTS,
            all_bounded(boids@),
            i < n,
            me == boids@[i as int],
            -PARAM_LIMIT <= pr <= PARAM_LIMIT,
            -PARAM_LIMIT <= vr <= PARAM_LIMIT,
            j <= n,
            ({
                let a = neighbor_accum(boids@, captured@, i as int, pr as int, vr as int, j as int);
                &&& s.sep_x as int == a.sep_x
                &&& s.sep_y as int == a.sep_y
                &&& s.cnt as int == a.cnt
                &&& s.pos_x as int == a.pos_x
                &&& s.pos_y as int == a.pos_y
                &&& s.vel_x as int == a.vel_x
                &&& s.vel_y as int == a.vel_y
            }),
            -2_000_000_000_000 * j <= s.sep_x <= 2_000_000_000_000 * j,
            -2_000_000_000_000 * j <= s.sep_y <= 2_000_000_000_000 * j,
            s.cnt <= j,
            -1_000_000_000_000 * s.cnt <= s.pos_x <= 1_000_000_000_000 * s.cnt,
            -1_000_000_000_000 * s.cnt <= s.pos_y <= 1_000_000_000_000 * s.cnt,
            -1_000_000_000_000 * s.cnt <= s.vel_x <= 1_000_000_000_000 * s.cnt,
            -1_000_000_000_000 * s.cnt <= s.vel_y <= 1_000_000_000_000 * s.cnt,
        decreases n - j,
    {
        proof {
            assert(boids@[j as int].bounded());
            assert(boids@[i as int].bounded());
        }
        if j != i && !captured[j] {
            let o: Agent = boids[j];
            if within_range_exec(me.pos, o.pos, pr) {
                s.sep_x = s.sep_x + (me.pos.x as i128 - o.pos.x as i128);
                s.sep_y = s.sep_y + (me.pos.y as i128 - o.pos.y as i128);
            } else if within_range_exec(me.pos, o.pos, vr) {
                s.cnt = s.cnt + 1;
                s.pos_x = s.pos_x + o.pos.x as i128;
                s.pos_y = s.pos_y + o.pos.y as i128;
                s.vel_x = s.vel_x + o.vel.x as i128;
                s.vel_y = s.vel_y + o.vel.y as i128;
            }
        }
        j = j + 1;
    }
    s
}

/// The predator scan for one point, on machine integers.
fn scan_predators(me: Vec2i, preds: &Vec<Agent>, pr: i64) -> (s: (i128, i128))
    requires
        preds@.len() <= MAX_AGENTS,
        all_bounded(preds@),
        me.bounded(COORD_LIMIT as int),
        -PARAM_LIMIT <= pr <= PARAM_LIMIT,
    ensures
        s.0 as int == avoid_accum(me, preds@, pr as int, preds@.len() as int).x,
        s.1 as int == avoid_accum(me, preds@, pr as int, preds@.len() as int).y,
        -2_000_000_000_000 * preds@.len() <= s.0 <= 2_000_000_000_000 * preds@.len(),
        -2_000_000_000_000 * preds@.len() <= s.1 <= 2_000_000_000_000 * preds@.len(),
{
    let n: usize = preds.len();
    let mut ax: i128 = 0;
    let mut ay: i128 = 0;
    let mut q: usize = 0;
    while q < n
        invariant
            n == preds@.len(),
            n <= MAX_AGENTS,
            all_bounded(preds@),
            me.bounded(COORD_LIMIT as int),
            -PARAM_LIMIT <= pr <= PARAM_LIMIT,
            q <= n,
            ax as int == avoid_accum(me, preds@, pr as int, q as int).x,
            ay as int == avoid_accum(me, preds@, pr as int, q as int).y,
            -2_000_000_000_000 * q <= ax <= 2_000_000_000_000 * q,
            -2_000_000_000_000 * q <= ay <= 2_000_000_000_000 * q,
        decreases n - q,
    {
        proof {
            assert(preds@[q as int].bounded());
        }
        let o: Agent = preds[q];
        if within_range_exec(me, o.pos, pr) {
            ax = ax + (me.x as i128 - o.pos.x as i128);
            ay = ay + (me.y as i128 - o.pos.y as i128);
        }
        q = q + 1;
    }
    (ax, ay)
}

/// One unit of work of the flocking kernel: the full update of boid `i`
/// computed from the pre-pass snapshot.
pub fn boid_step(
    boids: &Vec<Agent>,
    captured: &Vec<bool>,
    predators: &Vec<Agent>,
    params: BoidParams,
    area: Rect,
    i: usize,
) -> (a: Agent)
    requires
        captured@.len() == boids@.len(),
        boids@.len() <= MAX_AGENTS,
        predators@.len() <= MAX_AGENTS,
        all_bounded(boids@),
        all_bounded(predators@),
        i < boids@.len(),
        params.valid(),
        area.valid(),
    ensures
        a == boid_step_spec(boids@, captured@, predators@, params, area, i as int),
        a.bounded(),
{
    let me: Agent = boids[i];
    proof {
        assert(boids@[i as int].bounded());
    }
    let s = scan_neighbors(boids, captured, i, params.protected_range, params.visual_range);
    let (av_x, av_y) = scan_predators(me.pos, predators, params.protected_range);

    let sep_x_t: i128 = scaled_term(params.self_avoid_factor, s.sep_x);
    let sep_y_t: i128 = scaled_term(params.self_avoid_factor, s.sep_y);
    let pav_x_t: i128 = scaled_term(params.predator_avoid_factor, av_x);
    let pav_y_t: i128 = scaled_term(params.predator_avoid_factor, av_y);

    let mut coh_x_t: i128 = 0;
    let mut coh_y_t: i128 = 0;
    let mut ali_x_t: i128 = 0;
    let mut ali_y_t: i128 = 0;
    if s.cnt > 0 {
        let cnt: i128 = s.cnt as i128;
        proof {
            lemma_avg_bounded(s.pos_x as int, s.cnt as int);
            lemma_avg_bounded(s.pos_y as int, s.cnt as int);
            lemma_avg_bounded(s.vel_x as int, s.cnt as int);
            lemma_avg_bounded(s.vel_y as int, s.cnt as int);
        }
        let avg_px: i128 = floor_div(s.pos_x, cnt);
        let avg_py: i128 = floor_div(s.pos_y, cnt);
        let avg_vx: i128 = floor_div(s.vel_x, cnt);
        let avg_vy: i128 = floor_div(s.vel_y, cnt);
        coh_x_t = scaled_term(params.centering_factor, avg_px - me.pos.x as i128);
        coh_y_t = scaled_term(params.centering_factor, avg_py - me.pos.y as i128);
        ali_x_t = scaled_term(params.matching_factor, avg_vx - me.vel.x as i128);
        ali_y_t = scaled_term(params.matching_factor, avg_vy - me.vel.y as i128);
    }

    let mut tx: i128 = 0;
    let mut ty: i128 = 0;
    if me.pos.x < area.left {
        tx = tx + params.turn_factor as i128;
    }
    if me.pos.x > area.right {
        tx = tx - params.turn_factor as i128;
    }
    if me.pos.y < area.bottom {
        ty = ty + params.turn_factor as i128;
    }
    if me.pos.y > area.top {
        ty = ty - params.turn_factor as i128;
    }

    let raw_x: i128 = me.vel.x as i128 + sep_x_t + coh_x_t + ali_x_t + pav_x_t + tx;
    let raw_y: i128 = me.vel.y as i128 + sep_y_t + coh_y_t + ali_y_t + pav_y_t + ty;
    let vx: i64 = clamp_axis(raw_x, params.min_velocity, params.max_velocity);
    let vy: i64 = clamp_axis(raw_y, params.min_velocity, params.max_velocity);
    let px: i64 = clamp_axis(me.pos.x as i128 + vx as i128, -COORD_LIMIT, COORD_LIMIT);
    let py: i64 = clamp_axis(me.pos.y as i128 + vy as i128, -COORD_LIMIT, COORD_LIMIT);

    proof {
        assert(raw_x as int == boid_raw_vel_x(boids@, captured@, predators@, params, area, i as int));
        assert(raw_y as int == boid_raw_vel_y(boids@, captured@, predators@, params, area, i as int));
    }
    Agent { pos: Vec2i { x: px, y: py }, vel: Vec2i { x: vx, y: vy } }
}

/// The flocking pass: every boid is rewritten with its kernel update,
/// each computed from the same pre-pass snapshot, exactly as a
/// double-buffered parallel dispatch commits it.  Captured boids keep
/// moving but were excluded from every neighbour accumulation.
pub fn flocking_pass(store: &mut AgentStore, params: BoidParams, area: Rect)
    requires
        old(store).wf(),
        params.valid(),
        area.valid(),
    ensures
        final(store).wf(),
        final(store).boids@.len() == old(store).boids@.len(),
        forall|i: int|
            0 <= i < old(store).boids@.len() ==> #[trigger] final(store).boids@[i]
                == boid_step_spec(
                old(store).boids@,
                old(store).captured@,
                old(store).predators@,
                params,
                area,
                i,
            ),
        final(store).predators@ == old(store).predators@,
        final(store).captured@ == old(store).captured@,
        final(store).targets@ == old(store).targets@,
        final(store).captures@ == old(store).captures@,
        params.min_velocity <= params.max_velocity ==> forall|i: int|
            0 <= i < final(store).boids@.len() ==> params.min_velocity
                <= #[trigger] final(store).boids@[i].vel.x <= params.max_velocity
                && params.min_velocity <= final(store).boids@[i].vel.y <= params.max_velocity,
{
    let n: usize = store.boids.len();
    let mut updated: Vec<Agent> = Vec::new();
    let mut i: usize = 0;
    while i < n
        invariant
            store.wf(),
            store == old(store),
            n == store.boids@.len(),
            params.valid(),
            area.valid(),
            i <= n,
            updated@.len() == i,
            forall|k: int|
                0 <= k < i ==> #[trigger] updated@[k] == boid_step_spec(
                    store.boids@,
                    store.captured@,
                    store.predators@,
                    params,
                    area,
                    k,
                ),
            forall|k: int| 0 <= k < i ==> (#[trigger] updated@[k]).bounded(),
        decreases n - i,
    {
        let a = boid_step(&store.boids, &store.captured, &store.predators, params, area, i);
        updated.push(a);
        i = i + 1;
    }
    store.boids = updated;
    proof {
        if params.min_velocity <= params.max_velocity {
            assert forall|k: int|
                0 <= k < final(store).boids@.len() implies params.min_velocity
                <= #[trigger] final(store).boids@[k].vel.x <= params.max_velocity
                && params.min_velocity <= final(store).boids@[k].vel.y
                <= params.max_velocity by {
                lemma_boid_step_velocity_clamped(
                    old(store).boids@,
                    old(store).captured@,
                    old(store).predators@,
                    params,
                    area,
                    k,
                );
            }
        }
    }
}

/// The clamp invariant of the flocking kernel: with a coherent velocity
/// range, an updated boid's velocity lies within
/// `[min_velocity, max_velocity]` on each axis.
pub proof fn lemma_boid_step_velocity_clamped(
    boids: Seq<Agent>,
    captured: Seq<bool>,
    preds: Seq<Agent>,
    p: BoidParams,
    area: Rect,
    i: int,
)
    requires
        p.valid(),
        p.min_velocity <= p.max_velocity,
    ensures
        p.min_velocity <= boid_step_spec(boids, captured, preds, p, area, i).vel.x
            <= p.max_velocity,
        p.min_velocity <= boid_step_spec(boids, captured, preds, p, area, i).vel.y
            <= p.max_velocity,
{
}

/// A boid outside the simulation rectangle is steered strictly back
/// toward the interior: the boundary term is positive past the low edge
/// and negative past the high edge of each axis, and zero inside.
pub proof fn lemma_boundary_turns_inward(pos: Vec2i, area: Rect, tf: int)
    requires
        tf > 0,
        area.left <= area.right,
        area.bottom <= area.top,
    ensures
        pos.x < area.left ==> turn_x(pos, area, tf) > 0,
        pos.x > area.right ==> turn_x(pos, area, tf) < 0,
        area.left <= pos.x <= area.right ==> turn_x(pos, area, tf) == 0,
        pos.y < area.bottom ==> turn_y(pos, area, tf) > 0,
        pos.y > area.top ==> turn_y(pos, area, tf) < 0,
        area.bottom <= pos.y <= area.top ==> turn_y(pos, area, tf) == 0,
{
}

/// A zero centering factor removes cohesion entirely: the cohesion term
/// vanishes and the updated velocity is exactly the clamped sum of the
/// remaining contributions, as if cohesion were algebraically
/// subtracted from the kernel.
pub proof fn lemma_zero_centering_removes_cohesion(
    boids: Seq<Agent>,
    captured: Seq<bool>,
    preds: Seq<Agent>,
    p: BoidParams,
    area: Rect,
    i: int,
)
    requires
        p.centering_factor == 0,
        0 <= i < boids.len(),
    ensures
        cohesion_x(boids, captured, i, p) == 0,
        cohesion_y(boids, captured, i, p) == 0,
        boid_step_spec(boids, captured, preds, p, area, i).vel.x == clamp_spec(
            boids[i].vel.x + separation_x(boids, captured, i, p) + alignment_x(boids, captured, i, p)
                + predator_avoid_x(boids, preds, i, p) + turn_x(
                boids[i].pos,
                area,
                p.turn_factor as int,
            ),
            p.min_velocity as int,
            p.max_velocity as int,
        ) as i64,
        boid_step_spec(boids, captured, preds, p, area, i).vel.y == clamp_spec(
            boids[i].vel.y + separation_y(boids, captured, i, p) + alignment_y(boids, captured, i, p)
                + predator_avoid_y(boids, preds, i, p) + turn_y(
                boids[i].pos,
                area,
                p.turn_factor as int,
            ),
            p.min_velocity as int,
            p.max_velocity as int,
        ) as i64,
{
    let a = neighbor_accum(
        boids,
        captured,
        i,
        p.protected_range as int,
        p.visual_range as int,
        boids.len() as int,
    );
    lemma_div_of0(crate::FACTOR_UNIT as int);
    if a.cnt > 0 {
        assert(0 * (a.pos_x / a.cnt - boids[i].pos.x) == 0);
        assert(0 * (a.pos_y / a.cnt - boids[i].pos.y) == 0);
    }
}

} // verus!
