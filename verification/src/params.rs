//! The tunable parameter sets the kernels read each frame, the view
//! transform, the simulation rectangle, and the interactive nudges
//! that adjust them.

use vstd::prelude::*;

verus! {

use crate::{COORD_LIMIT, FACTOR_UNIT, PARAM_LIMIT};
use crate::vecmath::{clamp_axis, clamp_spec, scaled_term, scaled_spec, Vec2i};
use vstd::arithmetic::div_mod::lemma_div_is_ordered;

/// Tunable coefficients of the flocking kernel.  Velocities, ranges and
/// the turn factor are in simulation units; the `*_factor` fields are
/// fractions in [`FACTOR_UNIT`]ths.
#[derive(Clone, Copy, PartialEq, Eq, Structural, Debug)]
pub struct BoidParams {
    pub max_velocity: i64,
    pub min_velocity: i64,
    pub turn_factor: i64,
    pub visual_range: i64,
    pub protected_range: i64,
    pub centering_factor: i64,
    pub self_avoid_factor: i64,
    pub predator_avoid_factor: i64,
    pub matching_factor: i64,
}

impl BoidParams {
    /// Every field fits the machine bound the kernels assume.  Nothing
    /// more is demanded: a degenerate set (say a minimum velocity above
    /// the maximum) still yields the defined clamp result.
    pub open spec fn valid(self) -> bool {
        &&& -PARAM_LIMIT <= self.max_velocity <= PARAM_LIMIT
        &&& -PARAM_LIMIT <= self.min_velocity <= PARAM_LIMIT
        &&& -PARAM_LIMIT <= self.turn_factor <= PARAM_LIMIT
        &&& -PARAM_LIMIT <= self.visual_range <= PARAM_LIMIT
        &&& -PARAM_LIMIT <= self.protected_range <= PARAM_LIMIT
        &&& -PARAM_LIMIT <= self.centering_factor <= PARAM_LIMIT
        &&& -PARAM_LIMIT <= self.self_avoid_factor <= PARAM_LIMIT
        &&& -PARAM_LIMIT <= self.predator_avoid_factor <= PARAM_LIMIT
        &&& -PARAM_LIMIT <= self.matching_factor <= PARAM_LIMIT
    }
}

/// The boid parameter set a simulation starts from: a gentle flock
/// with moderate speeds and small steering fractions.
pub open spec fn default_boid_params() -> BoidParams {
    BoidParams {
        max_velocity: 364_000,
        min_velocity: -356_000i64,
        turn_factor: 1_000,
        visual_range: 6_000_000,
        protected_range: 2_030_000,
        centering_factor: 9,
        self_avoid_factor: 13_000,
        predator_avoid_factor: 10_000,
        matching_factor: 38_800,
    }
}

impl Default for BoidParams {
    fn default() -> (r: BoidParams)
        ensures
            r == default_boid_params(),
            r.valid(),
    {
        BoidParams {
            max_velocity: 364_000,
            min_velocity: -356_000,
            turn_factor: 1_000,
            visual_range: 6_000_000,
            protected_range: 2_030_000,
            centering_factor: 9,
            self_avoid_factor: 13_000,
            predator_avoid_factor: 10_000,
            matching_factor: 38_800,
        }
    }
}

/// Tunable coefficients of the pursuit kernel, under the same unit
/// conventions as [`BoidParams`].
#[derive(Clone, Copy, PartialEq, Eq, Structural, Debug)]
pub struct PredatorParams {
    pub max_velocity: i64,
    pub min_velocity: i64,
    pub turn_factor: i64,
    pub pursuit_factor: i64,
    pub pursuit_multiplier: i64,
    pub matching_factor: i64,
    pub self_avoid_factor: i64,
    pub visual_range: i64,
    pub protected_range: i64,
    pub interest_range: i64,
}

impl PredatorParams {
    /// Every field fits the machine bound the kernels assume.
    pub open spec fn valid(self) -> bool {
        &&& -PARAM_LIMIT <= self.max_velocity <= PARAM_LIMIT
        &&& -PARAM_LIMIT <= self.min_velocity <= PARAM_LIMIT
        &&& -PARAM_LIMIT <= self.turn_factor <= PARAM_LIMIT
        &&& -PARAM_LIMIT <= self.pursuit_factor <= PARAM_LIMIT
        &&& -PARAM_LIMIT <= self.pursuit_multiplier <= PARAM_LIMIT
        &&& -PARAM_LIMIT <= self.matching_factor <= PARAM_LIMIT
        &&& -PARAM_LIMIT <= self.self_avoid_factor <= PARAM_LIMIT
        &&& -PARAM_LIMIT <= self.visual_range <= PARAM_LIMIT
        &&& -PARAM_LIMIT <= self.protected_range <= PARAM_LIMIT
        &&& -PARAM_LIMIT <= self.interest_range <= PARAM_LIMIT
    }
}

/// The predator parameter set a simulation starts from: a fast hunter
/// with wide senses and strong pursuit.
pub open spec fn default_predator_params() -> PredatorParams {
    PredatorParams {
        max_velocity: 4_600_000,
        min_velocity: -4_600_000i64,
        turn_factor: 1_000,
        pursuit_factor: 300_000,
        pursuit_multiplier: 1_200_000,
        matching_factor: 600_000,
        self_avoid_factor: 3_000,
        visual_range: 100_000_000,
        protected_range: 20_000_000,
        interest_range: 50_000_000,
    }
}

impl Default for PredatorParams {
    fn default() -> (r: PredatorParams)
        ensures
            r == default_predator_params(),
            r.valid(),
    {
        PredatorParams {
            max_velocity: 4_600_000,
            min_velocity: -4_600_000,
            turn_factor: 1_000,
            pursuit_factor: 300_000,
            pursuit_multiplier: 1_200_000,
            matching_factor: 600_000,
            self_avoid_factor: 3_000,
            visual_range: 100_000_000,
            protected_range: 20_000_000,
            interest_range: 50_000_000,
        }
    }
}

/// The view transform: pan by the shifts, then scale by `zoom` (a
/// fraction in [`FACTOR_UNIT`]ths).  `time_modifier` only paces purely
/// visual animation and never reaches the simulation.
#[derive(Clone, Copy, PartialEq, Eq, Structural, Debug)]
pub struct ViewParams {
    pub x_shift: i64,
    pub y_shift: i64,
    pub zoom: i64,
    pub time_modifier: i64,
}

impl ViewParams {
    /// Shifts stay inside the coordinate range and the zoom is a
    /// positive fraction, so panning can divide by it.
    pub open spec fn valid(self) -> bool {
        &&& -COORD_LIMIT <= self.x_shift <= COORD_LIMIT
        &&& -COORD_LIMIT <= self.y_shift <= COORD_LIMIT
        &&& 0 < self.zoom <= PARAM_LIMIT
        &&& -PARAM_LIMIT <= self.time_modifier <= PARAM_LIMIT
    }
}

/// The view transform a simulation starts from.
pub open spec fn default_view_params() -> ViewParams {
    ViewParams { x_shift: 0, y_shift: 0, zoom: 10_000, time_modifier: 10_000 }
}

impl Default for ViewParams {
    fn default() -> (r: ViewParams)
        ensures
            r == default_view_params(),
            r.valid(),
    {
        ViewParams { x_shift: 0, y_shift: 0, zoom: 10_000, time_modifier: 10_000 }
    }
}

/// The simulation rectangle: a boid or predator drifting past an edge is
/// softly turned back toward the interior.
#[derive(Clone, Copy, PartialEq, Eq, Structural, Debug)]
pub struct Rect {
    pub left: i64,
    pub right: i64,
    pub bottom: i64,
    pub top: i64,
}

impl Rect {
    pub open spec fn valid(self) -> bool {
        &&& -COORD_LIMIT <= self.left <= self.right <= COORD_LIMIT
        &&& -COORD_LIMIT <= self.bottom <= self.top <= COORD_LIMIT
    }
}

/// The simulation rectangle a simulation starts from: a hundred units
/// in every direction from the origin.
pub open spec fn default_area() -> Rect {
    Rect { left: -100_000_000i64, right: 100_000_000, bottom: -100_000_000i64, top: 100_000_000 }
}

impl Default for Rect {
    fn default() -> (r: Rect)
        ensures
            r == default_area(),
            r.valid(),
    {
        Rect { left: -100_000_000, right: 100_000_000, bottom: -100_000_000, top: 100_000_000 }
    }
}

/// How far one pan step moves the view: a hundredth of a unit of view
/// space, which is `10_000 * FACTOR_UNIT / zoom` in simulation space -
/// the more zoomed in, the finer the pan.
pub open spec fn pan_step_spec(zoom: int) -> int {
    10_000_000_000int / zoom
}

/// A step applied in a chosen direction: forward, backward, or not at
/// all.
pub open spec fn signed_step(dir: int, step: int) -> int {
    if dir > 0 {
        step
    } else if dir < 0 {
        -step
    } else {
        0
    }
}

impl ViewParams {
    /// One pan step on each axis: `dx` and `dy` pick the direction
    /// (negative, none, positive); the shifts saturate at the
    /// coordinate range.
    pub fn pan(&mut self, dx: i64, dy: i64)
        requires
            old(self).valid(),
            -1 <= dx <= 1,
            -1 <= dy <= 1,
        ensures
            final(self).valid(),
            final(self).x_shift as int == clamp_spec(
                old(self).x_shift + signed_step(dx as int, pan_step_spec(old(self).zoom as int)),
                -COORD_LIMIT as int,
                COORD_LIMIT as int,
            ),
            final(self).y_shift as int == clamp_spec(
                old(self).y_shift + signed_step(dy as int, pan_step_spec(old(self).zoom as int)),
                -COORD_LIMIT as int,
                COORD_LIMIT as int,
            ),
            final(self).zoom == old(self).zoom,
            final(self).time_modifier == old(self).time_modifier,
    {
        let step: i64 = (10_000_000_000u64 / (self.zoom as u64)) as i64;
        let sx: i64 = if dx > 0 {
            step
        } else if dx < 0 {
            -step
        } else {
            0
        };
        let sy: i64 = if dy > 0 {
            step
        } else if dy < 0 {
            -step
        } else {
            0
        };
        self.x_shift = clamp_axis(self.x_shift as i128 + sx as i128, -COORD_LIMIT, COORD_LIMIT);
        self.y_shift = clamp_axis(self.y_shift as i128 + sy as i128, -COORD_LIMIT, COORD_LIMIT);
    }

    /// One zoom step: the zoom grows or shrinks by a tenth of itself,
    /// floored at the finest positive fraction and capped at the
    /// parameter bound, so it stays valid forever.
    pub fn zoom_step(&mut self, dir: i64)
        requires
            old(self).valid(),
            -1 <= dir <= 1,
        ensures
            final(self).valid(),
            final(self).zoom as int == clamp_spec(
                old(self).zoom + signed_step(dir as int, old(self).zoom as int / 10),
                1,
                PARAM_LIMIT as int,
            ),
            final(self).x_shift == old(self).x_shift,
            final(self).y_shift == old(self).y_shift,
            final(self).time_modifier == old(self).time_modifier,
    {
        let tenth: i64 = ((self.zoom as u64) / 10) as i64;
        let dz: i64 = if dir > 0 {
            tenth
        } else if dir < 0 {
            -tenth
        } else {
            0
        };
        self.zoom = clamp_axis(self.zoom as i128 + dz as i128, 1, PARAM_LIMIT);
    }
}

/// A nudged parameter: the step is added, the result floored at `floor`
/// and capped at the representable parameter bound.
pub open spec fn bump_spec(value: int, delta: int, floor: int) -> int {
    clamp_spec(value + delta, floor, PARAM_LIMIT as int)
}

/// Adjusts one parameter by a signed step, as the interactive controls
/// do, never leaving the valid parameter range.
pub fn bump(value: i64, delta: i64, floor: i64) -> (r: i64)
    requires
        -PARAM_LIMIT <= floor <= PARAM_LIMIT,
    ensures
        r as int == bump_spec(value as int, delta as int, floor as int),
        -PARAM_LIMIT <= r <= PARAM_LIMIT,
{
    clamp_axis(value as i128 + delta as i128, floor, PARAM_LIMIT)
}

/// Where a simulation point lands in view space: the pan applied first,
/// then the zoom fraction.
pub open spec fn view_map_spec(p: Vec2i, v: ViewParams) -> Vec2i {
    Vec2i {
        x: scaled_spec(v.zoom as int, p.x - v.x_shift) as i64,
        y: scaled_spec(v.zoom as int, p.y - v.y_shift) as i64,
    }
}

/// Maps a simulation-space point through the view transform; the whole
/// of rendering a frame is this function over the agent arrays.
pub fn view_map(p: Vec2i, v: ViewParams) -> (r: Vec2i)
    requires
        p.bounded(COORD_LIMIT as int),
        v.valid(),
    ensures
        r == view_map_spec(p, v),
        r.bounded(2_000_000_000_000_000),
{
    let sx: i128 = scaled_term(v.zoom, p.x as i128 - v.x_shift as i128);
    let sy: i128 = scaled_term(v.zoom, p.y as i128 - v.y_shift as i128);
    proof {
        lemma_view_scale_bounded(v.zoom as int, p.x - v.x_shift);
        lemma_view_scale_bounded(v.zoom as int, p.y - v.y_shift);
    }
    Vec2i { x: sx as i64, y: sy as i64 }
}

/// A zoomed pan: the product of a zoom fraction and an on-screen
/// displacement stays well inside the machine coordinate range.
proof fn lemma_view_scale_bounded(zoom: int, diff: int)
    requires
        0 < zoom <= PARAM_LIMIT,
        -2 * COORD_LIMIT <= diff <= 2 * COORD_LIMIT,
    ensures
        -2_000_000_000_000_000 <= scaled_spec(zoom, diff) <= 2_000_000_000_000_000,
{
    assert(-2_000_000_000_000_000_000_000 <= zoom * diff <= 2_000_000_000_000_000_000_000)
        by (nonlinear_arith)
        requires
            0 < zoom <= PARAM_LIMIT,
            -2 * COORD_LIMIT <= diff <= 2 * COORD_LIMIT,
    ;
    lemma_div_is_ordered(-2_000_000_000_000_000_000_000, zoom * diff, FACTOR_UNIT as int);
    lemma_div_is_ordered(zoom * diff, 2_000_000_000_000_000_000_000, FACTOR_UNIT as int);
}

} // verus!
