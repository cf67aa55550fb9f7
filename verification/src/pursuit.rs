//! The pursuit kernel: target acquisition, pursuit-curve steering,
//! inter-predator avoidance and matching, and capture detection and
//! counting, each update a pure function of the pre-pass snapshot.

use vstd::prelude::*;

verus! {

use crate::{COORD_LIMIT, MAX_AGENTS, NO_TARGET, PARAM_LIMIT};
use crate::vecmath::{
    clamp_axis, clamp_spec, dist2, dist2_exec, floor_div, lemma_avg_bounded, scaled_spec,
    scaled_term, within_range, within_range_exec, Vec2i,
};
use crate::params::{PredatorParams, Rect};
use crate::store::{all_bounded, copy_bools, targets_in_range, Agent, AgentStore};
use crate::flocking::{turn_x, turn_y};

/// The boid a predator acquires from a scan of boids `0 .. k`: the
/// nearest uncaptured boid strictly inside the interest range, the
/// earliest index winning ties; `-1` when none qualifies.
pub open spec fn nearest_boid(
    boids: Seq<Agent>,
    captured: Seq<bool>,
    from: Vec2i,
    ir: int,
    k: int,
) -> int
    decreases k,
{
    if k <= 0 {
        -1
    } else {
        let prev = nearest_boid(boids, captured, from, ir, k - 1);
        let j = k - 1;
        if captured[j] || !within_range(from, boids[j].pos, ir) {
            prev
        } else if prev == -1 || dist2(from, boids[j].pos) < dist2(from, boids[prev].pos) {
            j
        } else {
            prev
        }
    }
}

/// The acquired boid index is the sentinel or a scanned slot.
pub proof fn lemma_nearest_in_range(
    boids: Seq<Agent>,
    captured: Seq<bool>,
    from: Vec2i,
    ir: int,
    k: int,
)
    requires
        k <= boids.len(),
    ensures
        nearest_boid(boids, captured, from, ir, k) == -1 || (0 <= nearest_boid(
            boids,
            captured,
            from,
            ir,
            k,
        ) < k),
    decreases k,
{
    if k > 0 {
        lemma_nearest_in_range(boids, captured, from, ir, k - 1);
    }
}

/// The target predator `p` works with this pass: its current one where
/// that is still a live, uncaptured boid, else the nearest uncaptured
/// boid inside the interest range; `-1` for "no target".
pub open spec fn effective_target(
    boids: Seq<Agent>,
    captured: Seq<bool>,
    targets: Seq<u32>,
    preds: Seq<Agent>,
    pp: PredatorParams,
    p: int,
) -> int {
    let cur = targets[p];
    if cur != NO_TARGET && cur < boids.len() && !captured[cur as int] {
        cur as int
    } else {
        nearest_boid(boids, captured, preds[p].pos, pp.interest_range as int, boids.len() as int)
    }
}

/// What one predator has accumulated after scanning the other predators
/// `0 .. k`: repulsion sums over protected-range flockmates, velocity
/// sums with a count over visual-range flockmates.
pub struct FlockmateAccum {
    pub av_x: int,
    pub av_y: int,
    pub cnt: int,
    pub vel_x: int,
    pub vel_y: int,
}

pub open spec fn flockmate_accum(preds: Seq<Agent>, p: int, pr: int, vr: int, k: int) -> FlockmateAccum
    decreases k,
{
    if k <= 0 {
        FlockmateAccum { av_x: 0, av_y: 0, cnt: 0, vel_x: 0, vel_y: 0 }
    } else {
        let a = flockmate_accum(preds, p, pr, vr, k - 1);
        let q = k - 1;
        if q == p {
            a
        } else {
            let me = preds[p];
            let o = preds[q];
            if within_range(me.pos, o.pos, pr) {
                FlockmateAccum {
                    av_x: a.av_x + (me.pos.x - o.pos.x),
                    av_y: a.av_y + (me.pos.y - o.pos.y),
                    cnt: a.cnt,
                    vel_x: a.vel_x,
                    vel_y: a.vel_y,
                }
            } else if within_range(me.pos, o.pos, vr) {
                FlockmateAccum {
                    av_x: a.av_x,
                    av_y: a.av_y,
                    cnt: a.cnt + 1,
                    vel_x: a.vel_x + o.vel.x,
                    vel_y: a.vel_y + o.vel.y,
                }
            } else {
                a
            }
        }
    }
}

/// Pursuit-curve steering: the intercept point is the target's position
/// extrapolated by `pursuit_multiplier` times its velocity, and the
/// steering contribution is `pursuit_factor` times the displacement
/// from the predator to that intercept.
pub open spec fn pursuit_x(boids: Seq<Agent>, t: int, from: Vec2i, pp: PredatorParams) -> int {
    let tgt = boids[t];
    let intercept = tgt.pos.x + scaled_spec(pp.pursuit_multiplier as int, tgt.vel.x as int);
    scaled_spec(pp.pursuit_factor as int, intercept - from.x)
}

pub open spec fn pursuit_y(boids: Seq<Agent>, t: int, from: Vec2i, pp: PredatorParams) -> int {
    let tgt = boids[t];
    let intercept = tgt.pos.y + scaled_spec(pp.pursuit_multiplier as int, tgt.vel.y as int);
    scaled_spec(pp.pursuit_factor as int, intercept - from.y)
}

/// The unclamped velocity the pursuit kernel steers predator `p`
/// toward: pursuit, inter-predator avoidance, velocity matching and
/// boundary turning on top of its old velocity.
pub open spec fn pred_raw_vel_x(
    boids: Seq<Agent>,
    captured: Seq<bool>,
    targets: Seq<u32>,
    preds: Seq<Agent>,
    pp: PredatorParams,
    area: Rect,
    p: int,
) -> int {
    let me = preds[p];
    let t = effective_target(boids, captured, targets, preds, pp, p);
    let a = flockmate_accum(
        preds,
        p,
        pp.protected_range as int,
        pp.visual_range as int,
        preds.len() as int,
    );
    me.vel.x + (if t >= 0 {
        pursuit_x(boids, t, me.pos, pp)
    } else {
        0
    }) + scaled_spec(pp.self_avoid_factor as int, a.av_x) + (if a.cnt > 0 {
        scaled_spec(pp.matching_factor as int, a.vel_x / a.cnt - me.vel.x)
    } else {
        0
    }) + turn_x(me.pos, area, pp.turn_factor as int)
}

pub open spec fn pred_raw_vel_y(
    boids: Seq<Agent>,
    captured: Seq<bool>,
    targets: Seq<u32>,
    preds: Seq<Agent>,
    pp: PredatorParams,
    area: Rect,
    p: int,
) -> int {
    let me = preds[p];
    let t = effective_target(boids, captured, targets, preds, pp, p);
    let a = flockmate_accum(
        preds,
        p,
        pp.protected_range as int,
        pp.visual_range as int,
        preds.len() as int,
    );
    me.vel.y + (if t >= 0 {
        pursuit_y(boids, t, me.pos, pp)
    } else {
        0
    }) + scaled_spec(pp.self_avoid_factor as int, a.av_y) + (if a.cnt > 0 {
        scaled_spec(pp.matching_factor as int, a.vel_y / a.cnt - me.vel.y)
    } else {
        0
    }) + turn_y(me.pos, area, pp.turn_factor as int)
}

/// The whole pursuit update of predator `p`'s position and velocity, a
/// function of the pre-pass snapshot alone: steer, clamp each velocity
/// axis, integrate one tick saturating at the coordinate range.
pub open spec fn pred_step_spec(
    boids: Seq<Agent>,
    captured: Seq<bool>,
    targets: Seq<u32>,
    preds: Seq<Agent>,
    pp: PredatorParams,
    area: Rect,
    p: int,
) -> Agent {
    let vx = clamp_spec(
        pred_raw_vel_x(boids, captured, targets, preds, pp, area, p),
        pp.min_velocity as int,
        pp.max_velocity as int,
    );
    let vy = clamp_spec(
        pred_raw_vel_y(boids, captured, targets, preds, pp, area, p),
        pp.min_velocity as int,
        pp.max_velocity as int,
    );
    Agent {
        pos: Vec2i {
            x: clamp_spec(preds[p].pos.x + vx, -COORD_LIMIT as int, COORD_LIMIT as int) as i64,
            y: clamp_spec(preds[p].pos.y + vy, -COORD_LIMIT as int, COORD_LIMIT as int) as i64,
        },
        vel: Vec2i { x: vx as i64, y: vy as i64 },
    }
}

/// Whether predator `p` captures its target this pass: it has one and
/// stands strictly within the capture range of it, on pre-pass
/// positions.
pub open spec fn captures_now(
    boids: Seq<Agent>,
    captured: Seq<bool>,
    targets: Seq<u32>,
    preds: Seq<Agent>,
    pp: PredatorParams,
    cap_r: int,
    p: int,
) -> bool {
    let t = effective_target(boids, captured, targets, preds, pp, p);
    t >= 0 && within_range(preds[p].pos, boids[t].pos, cap_r)
}

/// Whether predator `p` captures exactly boid `b` this pass.
pub open spec fn pred_captures_boid(
    boids: Seq<Agent>,
    captured: Seq<bool>,
    targets: Seq<u32>,
    preds: Seq<Agent>,
    pp: PredatorParams,
    cap_r: int,
    p: int,
    b: int,
) -> bool {
    effective_target(boids, captured, targets, preds, pp, p) == b && captures_now(
        boids,
        captured,
        targets,
        preds,
        pp,
        cap_r,
        p,
    )
}

/// Predator `p`'s pursuit-target slot after the pass: cleared to the
/// sentinel by a capture (forcing re-acquisition next frame) or by
/// finding nothing, else the target it worked with.
pub open spec fn new_target_spec(
    boids: Seq<Agent>,
    captured: Seq<bool>,
    targets: Seq<u32>,
    preds: Seq<Agent>,
    pp: PredatorParams,
    cap_r: int,
    p: int,
) -> u32 {
    let t = effective_target(boids, captured, targets, preds, pp, p);
    if t < 0 || captures_now(boids, captured, targets, preds, pp, cap_r, p) {
        NO_TARGET
    } else {
        t as u32
    }
}

/// Predator `p`'s capture counter after the pass: one more on a
/// capture, held at the counter's ceiling.
pub open spec fn new_captures_spec(
    boids: Seq<Agent>,
    captured: Seq<bool>,
    targets: Seq<u32>,
    preds: Seq<Agent>,
    caps: Seq<u32>,
    pp: PredatorParams,
    cap_r: int,
    p: int,
) -> u32 {
    if captures_now(boids, captured, targets, preds, pp, cap_r, p) && caps[p] < u32::MAX {
        (caps[p] + 1) as u32
    } else {
        caps[p]
    }
}

/// Boid `b`'s captured flag after the pass: once set it stays set, and
/// it becomes set exactly when some predator captures `b` this pass.
pub open spec fn captured_after(
    boids: Seq<Agent>,
    captured: Seq<bool>,
    targets: Seq<u32>,
    preds: Seq<Agent>,
    pp: PredatorParams,
    cap_r: int,
    b: int,
) -> bool {
    captured[b] || exists|p: int|
        0 <= p < preds.len() && #[trigger] pred_captures_boid(
            boids,
            captured,
            targets,
            preds,
            pp,
            cap_r,
            p,
            b,
        )
}

/// The predator array after one pursuit pass, every slot mapped through
/// its kernel update against the same snapshot.
pub open spec fn pursuit_preds_spec(
    boids: Seq<Agent>,
    captured: Seq<bool>,
    targets: Seq<u32>,
    preds: Seq<Agent>,
    pp: PredatorParams,
    area: Rect,
) -> Seq<Agent> {
    Seq::new(preds.len(), |p: int| pred_step_spec(boids, captured, targets, preds, pp, area, p))
}

/// The pursuit-target slots after one pursuit pass.
pub open spec fn pursuit_targets_spec(
    boids: Seq<Agent>,
    captured: Seq<bool>,
    targets: Seq<u32>,
    preds: Seq<Agent>,
    pp: PredatorParams,
    cap_r: int,
) -> Seq<u32> {
    Seq::new(
        preds.len(),
        |p: int| new_target_spec(boids, captured, targets, preds, pp, cap_r, p),
    )
}

/// The capture counters after one pursuit pass.
pub open spec fn pursuit_captures_spec(
    boids: Seq<Agent>,
    captured: Seq<bool>,
    targets: Seq<u32>,
    preds: Seq<Agent>,
    caps: Seq<u32>,
    pp: PredatorParams,
    cap_r: int,
) -> Seq<u32> {
    Seq::new(
        caps.len(),
        |p: int| new_captures_spec(boids, captured, targets, preds, caps, pp, cap_r, p),
    )
}

/// The captured flags after one pursuit pass.
pub open spec fn pursuit_captured_spec(
    boids: Seq<Agent>,
    captured: Seq<bool>,
    targets: Seq<u32>,
    preds: Seq<Agent>,
    pp: PredatorParams,
    cap_r: int,
) -> Seq<bool> {
    Seq::new(
        boids.len(),
        |b: int| captured_after(boids, captured, targets, preds, pp, cap_r, b),
    )
}

/// Capture monotonicity: one pursuit pass never decreases a capture
/// counter and never clears a captured flag, so across any run of
/// frames the counters only grow and a captured boid stays captured.
pub proof fn lemma_capture_monotone(
    boids: Seq<Agent>,
    captured: Seq<bool>,
    targets: Seq<u32>,
    preds: Seq<Agent>,
    caps: Seq<u32>,
    pp: PredatorParams,
    cap_r: int,
)
    ensures
        forall|p: int|
            0 <= p < caps.len() ==> #[trigger] pursuit_captures_spec(
                boids,
                captured,
                targets,
                preds,
                caps,
                pp,
                cap_r,
            )[p] >= caps[p],
        forall|b: int|
            0 <= b < boids.len() && captured[b] ==> #[trigger] pursuit_captured_spec(
                boids,
                captured,
                targets,
                preds,
                pp,
                cap_r,
            )[b],
{
}

/// Scans the boids for the nearest uncaptured one inside the interest
/// range of the point `from`.
fn acquire_target(boids: &Vec<Agent>, captured: &Vec<bool>, from: Vec2i, ir: i64) -> (r: Option<
    usize,
>)
    requires
        captured@.len() == boids@.len(),
        boids@.len() <= MAX_AGENTS,
        all_bounded(boids@),
        from.bounded(COORD_LIMIT as int),
        -PARAM_LIMIT <= ir <= PARAM_LIMIT,
    ensures
        ({
            let nb = nearest_boid(boids@, captured@, from, ir as int, boids@.len() as int);
            if nb == -1 {
                r is None
            } else {
                r == Some(nb as usize)
            }
        }),
{
    let n: usize = boids.len();
    let mut found: bool = false;
    let mut best_idx: usize = 0;
    let mut best_d2: i128 = 0;
    let mut j: usize = 0;
    while j < n
        invariant
            n == boids@.len(),
            captured@.len() == boids@.len(),
            n <= MAX_AGENTS,
            all_bounded(boids@),
            from.bounded(COORD_LIMIT as int),
            -PARAM_LIMIT <= ir <= PARAM_LIMIT,
            j <= n,
            ({
                let nb = nearest_boid(boids@, captured@, from, ir as int, j as int);
                if found {
                    &&& nb == best_idx as int
                    &&& best_idx < n
                    &&& best_d2 as int == dist2(from, boids@[best_idx as int].pos)
                } else {
                    nb == -1
                }
            }),
        decreases n - j,
    {
        proof {
            assert(boids@[j as int].bounded());
            lemma_nearest_in_range(boids@, captured@, from, ir as int, j as int);
        }
        if !captured[j] && within_range_exec(from, boids[j].pos, ir) {
            let d2: i128 = dist2_exec(from, boids[j].pos);
            if !found || d2 < best_d2 {
                found = true;
                best_idx = j;
                best_d2 = d2;
            }
        }
        j = j + 1;
    }
    if found {
        Some(best_idx)
    } else {
        None
    }
}

struct FlockmateSums {
    av_x: i128,
    av_y: i128,
    cnt: usize,
    vel_x: i128,
    vel_y: i128,
}

/// The scan of the other predators for predator `p`, on machine
/// integers.
fn scan_flockmates(preds: &Vec<Agent>, p: usize, pr: i64, vr: i64) -> (s: FlockmateSums)
    requires
        preds@.len() <= MAX_AGENTS,
        all_bounded(preds@),
        p < preds@.len(),
        -PARAM_LIMIT <= pr <= PARAM_LIMIT,
        -PARAM_LIMIT <= vr <= PARAM_LIMIT,
    ensures
        ({
            let a = flockmate_accum(preds@, p as int, pr as int, vr as int, preds@.len() as int);
            &&& s.av_x as int == a.av_x
            &&& s.av_y as int == a.av_y
            &&& s.cnt as int == a.cnt
            &&& s.vel_x as int == a.vel_x
            &&& s.vel_y as int == a.vel_y
        }),
        -2_000_000_000_000 * preds@.len() <= s.av_x <= 2_000_000_000_000 * preds@.len(),
        -2_000_000_000_000 * preds@.len() <= s.av_y <= 2_000_000_000_000 * preds@.len(),
        s.cnt <= preds@.len(),
        -1_000_000_000_000 * s.cnt <= s.vel_x <= 1_000_000_000_000 * s.cnt,
        -1_000_000_000_000 * s.cnt <= s.vel_y <= 1_000_000_000_000 * s.cnt,
{
    let n: usize = preds.len();
    let me: Agent = preds[p];
    let mut s = FlockmateSums { av_x: 0, av_y: 0, cnt: 0, vel_x: 0, vel_y: 0 };
    let mut q: usize = 0;
    while q < n
        invariant
            n == preds@.len(),
            n <= MAX_AGENTS,
            all_bounded(preds@),
            p < n,
            me == preds@[p as int],
            -PARAM_LIMIT <= pr <= PARAM_LIMIT,
            -PARAM_LIMIT <= vr <= PARAM_LIMIT,
            q <= n,
            ({
                let a = flockmate_accum(preds@, p as int, pr as int, vr as int, q as int);
                &&& s.av_x as int == a.av_x
                &&& s.av_y as int == a.av_y
                &&& s.cnt as int == a.cnt
                &&& s.vel_x as int == a.vel_x
                &&& s.vel_y as int == a.vel_y
            }),
            -2_000_000_000_000 * q <= s.av_x <= 2_000_000_000_000 * q,
            -2_000_000_000_000 * q <= s.av_y <= 2_000_000_000_000 * q,
            s.cnt <= q,
            -1_000_000_000_000 * s.cnt <= s.vel_x <= 1_000_000_000_000 * s.cnt,
            -1_000_000_000_000 * s.cnt <= s.vel_y <= 1_000_000_000_000 * s.cnt,
        decreases n - q,
    {
        proof {
            assert(preds@[q as int].bounded());
            assert(preds@[p as int].bounded());
        }
        if q != p {
            let o: Agent = preds[q];
            if within_range_exec(me.pos, o.pos, pr) {
                s.av_x = s.av_x + (me.pos.x as i128 - o.pos.x as i128);
                s.av_y = s.av_y + (me.pos.y as i128 - o.pos.y as i128);
            } else if within_range_exec(me.pos, o.pos, vr) {
                s.cnt = s.cnt + 1;
                s.vel_x = s.vel_x + o.vel.x as i128;
                s.vel_y = s.vel_y + o.vel.y as i128;
            }
        }
        q = q + 1;
    }
    s
}

/// What one unit of work of the pursuit kernel decides for predator
/// `p`, all from the pre-pass snapshot.
pub struct PredatorOutcome {
    pub agent: Agent,
    pub target: u32,
    pub captures: bool,
    pub victim: usize,
}

/// One unit of work of the pursuit kernel: target acquisition, pursuit
/// steering, flockmate avoidance and matching, boundary turn, clamp,
/// integration, and the capture decision for predator `p`.
#[verifier::rlimit(60)]
pub fn predator_step(
    boids: &Vec<Agent>,
    captured: &Vec<bool>,
    targets: &Vec<u32>,
    preds: &Vec<Agent>,
    params: PredatorParams,
    area: Rect,
    capture_range: i64,
    p: usize,
) -> (o: PredatorOutcome)
    requires
        captured@.len() == boids@.len(),
        targets@.len() == preds@.len(),
        boids@.len() <= MAX_AGENTS,
        preds@.len() <= MAX_AGENTS,
        all_bounded(boids@),
        all_bounded(preds@),
        targets_in_range(targets@, boids@.len() as int),
        p < preds@.len(),
        params.valid(),
        area.valid(),
        -PARAM_LIMIT <= capture_range <= PARAM_LIMIT,
    ensures
        o.agent == pred_step_spec(boids@, captured@, targets@, preds@, params, area, p as int),
        o.agent.bounded(),
        o.target == new_target_spec(
            boids@,
            captured@,
            targets@,
            preds@,
            params,
            capture_range as int,
            p as int,
        ),
        o.target == NO_TARGET || o.target < boids@.len(),
        o.captures == captures_now(
            boids@,
            captured@,
            targets@,
            preds@,
            params,
            capture_range as int,
            p as int,
        ),
        o.captures ==> o.victim < boids@.len() && o.victim as int == effective_target(
            boids@,
            captured@,
            targets@,
            preds@,
            params,
            p as int,
        ),
{
    let me: Agent = preds[p];
    proof {
        assert(preds@[p as int].bounded());
        lemma_nearest_in_range(
            boids@,
            captured@,
            me.pos,
            params.interest_range as int,
            boids@.len() as int,
        );
    }

    // Target acquisition: keep a live target, else scan.
    let cur: u32 = targets[p];
    let t_opt: Option<usize> = if cur != NO_TARGET && !captured[cur as usize] {
        Some(cur as usize)
    } else {
        acquire_target(boids, captured, me.pos, params.interest_range)
    };

    let s = scan_flockmates(preds, p, params.protected_range, params.visual_range);
    let av_x_t: i128 = scaled_term(params.self_avoid_factor, s.av_x);
    let av_y_t: i128 = scaled_term(params.self_avoid_factor, s.av_y);

    let mut mat_x_t: i128 = 0;
    let mut mat_y_t: i128 = 0;
    if s.cnt > 0 {
        let cnt: i128 = s.cnt as i128;
        proof {
            lemma_avg_bounded(s.vel_x as int, s.cnt as int);
            lemma_avg_bounded(s.vel_y as int, s.cnt as int);
        }
        let avg_vx: i128 = floor_div(s.vel_x, cnt);
        let avg_vy: i128 = floor_div(s.vel_y, cnt);
        mat_x_t = scaled_term(params.matching_factor, avg_vx - me.vel.x as i128);
        mat_y_t = scaled_term(params.matching_factor, avg_vy - me.vel.y as i128);
    }

    let mut pur_x_t: i128 = 0;
    let mut pur_y_t: i128 = 0;
    if let Some(t) = t_opt {
        let tgt: Agent = boids[t];
        proof {
            assert(boids@[t as int].bounded());
        }
        let ext_x: i128 = scaled_term(params.pursuit_multiplier, tgt.vel.x as i128);
        let ext_y: i128 = scaled_term(params.pursuit_multiplier, tgt.vel.y as i128);
        let icept_x: i128 = tgt.pos.x as i128 + ext_x;
        let icept_y: i128 = tgt.pos.y as i128 + ext_y;
        pur_x_t = scaled_term(params.pursuit_factor, icept_x - me.pos.x as i128);
        pur_y_t = scaled_term(params.pursuit_factor, icept_y - me.pos.y as i128);
    }

    let mut tx: i128 = 0;
    let mut ty: i128 = 0;
    if me.pos.x < area.left {
        tx = tx + params.turn_factor as i128;
    }
    if me.pos.x > area.right {
        tx = tx - params.turn_factor as i128;
    }
    if me.pos.y < area.bottom {
        ty = ty + params.turn_factor as i128;
    }
    if me.pos.y > area.top {
        ty = ty - params.turn_factor as i128;
    }

    let raw_x: i128 = me.vel.x as i128 + pur_x_t + av_x_t + mat_x_t + tx;
    let raw_y: i128 = me.vel.y as i128 + pur_y_t + av_y_t + mat_y_t + ty;
    let vx: i64 = clamp_axis(raw_x, params.min_velocity, params.max_velocity);
    let vy: i64 = clamp_axis(raw_y, params.min_velocity, params.max_velocity);
    let px: i64 = clamp_axis(me.pos.x as i128 + vx as i128, -COORD_LIMIT, COORD_LIMIT);
    let py: i64 = clamp_axis(me.pos.y as i128 + vy as i128, -COORD_LIMIT, COORD_LIMIT);

    proof {
        assert(raw_x as int == pred_raw_vel_x(
            boids@,
            captured@,
            targets@,
            preds@,
            params,
            area,
            p as int,
        ));
        assert(raw_y as int == pred_raw_vel_y(
            boids@,
            captured@,
            targets@,
            preds@,
            params,
            area,
            p as int,
        ));
    }

    // Capture decision, on pre-pass positions.
    let mut captures: bool = false;
    let mut victim: usize = 0;
    let mut target: u32 = NO_TARGET;
    if let Some(t) = t_opt {
        proof {
            assert(boids@[t as int].bounded());
        }
        if within_range_exec(me.pos, boids[t].pos, capture_range) {
            captures = true;
            victim = t;
        } else {
            target = t as u32;
        }
    }

    PredatorOutcome {
        agent: Agent { pos: Vec2i { x: px, y: py }, vel: Vec2i { x: vx, y: vy } },
        target,
        captures,
        victim,
    }
}

/// The pursuit pass: every predator is rewritten with its kernel
/// update; captures mark the victim's flag, bump the counter and clear
/// the pursuit slot.  Every decision reads the pre-pass snapshot, so
/// the pass commits as a double-buffered parallel dispatch would.
pub fn pursuit_pass(store: &mut AgentStore, params: PredatorParams, area: Rect, capture_range: i64)
    requires
        old(store).wf(),
        params.valid(),
        area.valid(),
        -PARAM_LIMIT <= capture_range <= PARAM_LIMIT,
    ensures
        final(store).wf(),
        final(store).boids@ == old(store).boids@,
        final(store).predators@.len() == old(store).predators@.len(),
        final(store).targets@.len() == old(store).targets@.len(),
        final(store).captures@.len() == old(store).captures@.len(),
        final(store).captured@.len() == old(store).captured@.len(),
        forall|p: int|
            0 <= p < old(store).predators@.len() ==> #[trigger] final(store).predators@[p]
                == pred_step_spec(
                old(store).boids@,
                old(store).captured@,
                old(store).targets@,
                old(store).predators@,
                params,
                area,
                p,
            ),
        forall|p: int|
            0 <= p < old(store).predators@.len() ==> #[trigger] final(store).targets@[p]
                == new_target_spec(
                old(store).boids@,
                old(store).captured@,
                old(store).targets@,
                old(store).predators@,
                params,
                capture_range as int,
                p,
            ),
        forall|p: int|
            0 <= p < old(store).predators@.len() ==> #[trigger] final(store).captures@[p]
                == new_captures_spec(
                old(store).boids@,
                old(store).captured@,
                old(store).targets@,
                old(store).predators@,
                old(store).captures@,
                params,
                capture_range as int,
                p,
            ),
        forall|b: int|
            0 <= b < old(store).boids@.len() ==> #[trigger] final(store).captured@[b]
                == captured_after(
                old(store).boids@,
                old(store).captured@,
                old(store).targets@,
                old(store).predators@,
                params,
                capture_range as int,
                b,
            ),
        forall|p: int|
            0 <= p < old(store).captures@.len() ==> #[trigger] final(store).captures@[p]
                >= old(store).captures@[p],
        forall|b: int|
            0 <= b < old(store).captured@.len() && old(store).captured@[b]
                ==> #[trigger] final(store).captured@[b],
        params.min_velocity <= params.max_velocity ==> forall|p: int|
            0 <= p < final(store).predators@.len() ==> params.min_velocity
                <= #[trigger] final(store).predators@[p].vel.x <= params.max_velocity
                && params.min_velocity <= final(store).predators@[p].vel.y <= params.max_velocity,
{
    let n: usize = store.predators.len();
    let nb: usize = store.boids.len();
    let mut new_preds: Vec<Agent> = Vec::new();
    let mut new_targets: Vec<u32> = Vec::new();
    let mut new_caps: Vec<u32> = Vec::new();
    let mut new_captured: Vec<bool> = copy_bools(&store.captured);
    let mut p: usize = 0;
    while p < n
        invariant
            store.wf(),
            store == old(store),
            n == store.predators@.len(),
            nb == store.boids@.len(),
            params.valid(),
            area.valid(),
            -PARAM_LIMIT <= capture_range <= PARAM_LIMIT,
            p <= n,
            new_preds@.len() == p,
            new_targets@.len() == p,
            new_caps@.len() == p,
            new_captured@.len() == nb,
            forall|k: int|
                0 <= k < p ==> #[trigger] new_preds@[k] == pred_step_spec(
                    store.boids@,
                    store.captured@,
                    store.targets@,
                    store.predators@,
                    params,
                    area,
                    k,
                ),
            forall|k: int| 0 <= k < p ==> (#[trigger] new_preds@[k]).bounded(),
            forall|k: int|
                0 <= k < p ==> #[trigger] new_targets@[k] == new_target_spec(
                    store.boids@,
                    store.captured@,
                    store.targets@,
                    store.predators@,
                    params,
                    capture_range as int,
                    k,
                ),
            forall|k: int|
                0 <= k < p ==> (#[trigger] new_targets@[k] == NO_TARGET || new_targets@[k] < nb),
            forall|k: int|
                0 <= k < p ==> #[trigger] new_caps@[k] == new_captures_spec(
                    store.boids@,
                    store.captured@,
                    store.targets@,
                    store.predators@,
                    store.captures@,
                    params,
                    capture_range as int,
                    k,
                ),
            forall|b: int|
                0 <= b < nb ==> #[trigger] new_captured@[b] == (store.captured@[b] || exists|r: int|
                    0 <= r < p && #[trigger] pred_captures_boid(
                        store.boids@,
                        store.captured@,
                        store.targets@,
                        store.predators@,
                        params,
                        capture_range as int,
                        r,
                        b,
                    )),
        decreases n - p,
    {
        let o = predator_step(
            &store.boids,
            &store.captured,
            &store.targets,
            &store.predators,
            params,
            area,
            capture_range,
            p,
        );
        new_preds.push(o.agent);
        new_targets.push(o.target);
        let c: u32 = store.captures[p];
        let nc: u32 = if o.captures && c < 0xFFFF_FFFFu32 {
            c + 1
        } else {
            c
        };
        new_caps.push(nc);
        if o.captures {
            new_captured[o.victim] = true;
        }
        proof {
            let gb = store.boids@;
            let gc = store.captured@;
            let gt = store.targets@;
            let gq = store.predators@;
            let cr = capture_range as int;
            assert forall|b: int| 0 <= b < nb implies #[trigger] new_captured@[b] == (gc[b]
                || exists|r: int|
                0 <= r < p + 1 && #[trigger] pred_captures_boid(
                    gb,
                    gc,
                    gt,
                    gq,
                    params,
                    cr,
                    r,
                    b,
                )) by {
                if o.captures && b == o.victim as int {
                    assert(pred_captures_boid(gb, gc, gt, gq, params, cr, p as int, b));
                } else {
                    if exists|r: int|
                        0 <= r < p + 1 && #[trigger] pred_captures_boid(
                            gb,
                            gc,
                            gt,
                            gq,
                            params,
                            cr,
                            r,
                            b,
                        ) {
                        let r = choose|r: int|
                            0 <= r < p + 1 && #[trigger] pred_captures_boid(
                                gb,
                                gc,
                                gt,
                                gq,
                                params,
                                cr,
                                r,
                                b,
                            );
                        if r == p as int {
                            assert(false);
                        }
                        assert(0 <= r < p && pred_captures_boid(
                            gb,
                            gc,
                            gt,
                            gq,
                            params,
                            cr,
                            r,
                            b,
                        ));
                    }
                }
            }
        }
        p = p + 1;
    }
    store.predators = new_preds;
    store.targets = new_targets;
    store.captures = new_caps;
    store.captured = new_captured;
    proof {
        if params.min_velocity <= params.max_velocity {
            assert forall|k: int|
                0 <= k < final(store).predators@.len() implies params.min_velocity
                <= #[trigger] final(store).predators@[k].vel.x <= params.max_velocity
                && params.min_velocity <= final(store).predators@[k].vel.y
                <= params.max_velocity by {
                lemma_pred_step_velocity_clamped(
                    old(store).boids@,
                    old(store).captured@,
                    old(store).targets@,
                    old(store).predators@,
                    params,
                    area,
                    k,
                );
            }
        }
    }
}

/// The clamp invariant of the pursuit kernel: with a coherent velocity
/// range, an updated predator's velocity lies within
/// `[min_velocity, max_velocity]` on each axis.
pub proof fn lemma_pred_step_velocity_clamped(
    boids: Seq<Agent>,
    captured: Seq<bool>,
    targets: Seq<u32>,
    preds: Seq<Agent>,
    pp: PredatorParams,
    area: Rect,
    p: int,
)
    requires
        pp.valid(),
        pp.min_velocity <= pp.max_velocity,
    ensures
        pp.min_velocity <= pred_step_spec(boids, captured, targets, preds, pp, area, p).vel.x
            <= pp.max_velocity,
        pp.min_velocity <= pred_step_spec(boids, captured, targets, preds, pp, area, p).vel.y
            <= pp.max_velocity,
{
}

} // verus!
