use boids::flocking::flocking_pass;
use boids::params::{BoidParams, PredatorParams, Rect};
use boids::pursuit::pursuit_pass;
use boids::store::{Agent, AgentStore};
use boids::vecmath::Vec2i;
use boids::NO_TARGET;

fn agent_at(x: i64, y: i64, vx: i64, vy: i64) -> Agent {
    Agent { pos: Vec2i { x, y }, vel: Vec2i { x: vx, y: vy } }
}

/// Two boids half a unit apart with zero velocity: one flocking pass
/// drives their velocities strictly apart.  The exact symmetric values
/// also probe pass isolation: updating in place instead of against the
/// pre-pass snapshot would skew the second boid's repulsion.
#[test]
fn close_pair_repels() {
    let mut store = AgentStore::new(2, 0);
    store.write_boid(0, agent_at(0, 0, 0, 0));
    store.write_boid(1, agent_at(500_000, 0, 0, 0));
    let params = BoidParams { protected_range: 2_000_000, ..BoidParams::default() };
    flocking_pass(&mut store, params, Rect::default());
    let a = store.read_boid(0);
    let b = store.read_boid(1);
    assert!(a.vel.x < 0 && b.vel.x > 0);
    assert_eq!(a.vel, Vec2i { x: -6_500, y: 0 });
    assert_eq!(b.vel, Vec2i { x: 6_500, y: 0 });
    assert_eq!(a.pos, Vec2i { x: -6_500, y: 0 });
    assert_eq!(b.pos, Vec2i { x: 506_500, y: 0 });
}

/// A predator one unit from its acquired target with a two-unit capture
/// radius: one pursuit pass sets the captured flag, bumps the counter
/// by exactly one and clears the pursuit slot.
#[test]
fn capture_within_radius() {
    let mut store = AgentStore::new(1, 1);
    store.write_boid(0, agent_at(0, 0, 0, 0));
    store.write_predator(0, agent_at(1_000_000, 0, 0, 0));
    store.targets[0] = 0;
    pursuit_pass(&mut store, PredatorParams::default(), Rect::default(), 2_000_000);
    assert!(store.is_captured(0));
    assert_eq!(store.captures_of(0), 1);
    assert_eq!(store.target_of(0), NO_TARGET);
    // Pursuit steering still applied this pass: 0.3 of the one-unit gap.
    let p = store.read_predator(0);
    assert_eq!(p.vel, Vec2i { x: -300_000, y: 0 });
    assert_eq!(p.pos, Vec2i { x: 700_000, y: 0 });
}

/// No boid inside the interest range: the predator keeps the sentinel
/// and no pursuit steering is applied.
#[test]
fn no_target_outside_interest_range() {
    let mut store = AgentStore::new(1, 1);
    store.write_boid(0, agent_at(60_000_000, 0, 0, 0));
    store.write_predator(0, agent_at(0, 0, 0, 0));
    pursuit_pass(&mut store, PredatorParams::default(), Rect::default(), 2_000_000);
    assert_eq!(store.target_of(0), NO_TARGET);
    assert_eq!(store.captures_of(0), 0);
    assert!(!store.is_captured(0));
    let p = store.read_predator(0);
    assert_eq!(p.vel, Vec2i { x: 0, y: 0 });
    assert_eq!(p.pos, Vec2i { x: 0, y: 0 });
}

/// A nearer uncaptured boid wins acquisition; a captured one is passed
/// over.
#[test]
fn acquisition_picks_nearest_uncaptured() {
    let mut store = AgentStore::new(3, 1);
    store.write_boid(0, agent_at(3_000_000, 0, 0, 0));
    store.write_boid(1, agent_at(2_000_000, 0, 0, 0));
    store.write_boid(2, agent_at(-1_000_000, 0, 0, 0));
    store.captured[2] = true;
    store.write_predator(0, agent_at(0, 0, 0, 0));
    // A small capture range, so acquisition is observable un-captured.
    pursuit_pass(&mut store, PredatorParams::default(), Rect::default(), 1_000_000);
    assert_eq!(store.target_of(0), 1);
    assert_eq!(store.captures_of(0), 0);
}

/// A velocity outside the clamp window is pulled back onto it on both
/// axes by one flocking pass.
#[test]
fn flocking_clamps_velocity() {
    let mut store = AgentStore::new(1, 0);
    store.write_boid(0, agent_at(0, 0, 900_000, -900_000));
    let params = BoidParams::default();
    flocking_pass(&mut store, params, Rect::default());
    let a = store.read_boid(0);
    assert_eq!(a.vel, Vec2i { x: params.max_velocity, y: params.min_velocity });
}

/// The same clamp discipline holds for the pursuit kernel.
#[test]
fn pursuit_clamps_velocity() {
    let mut store = AgentStore::new(0, 1);
    store.write_predator(0, agent_at(0, 0, 9_000_000, -9_000_000));
    let params = PredatorParams::default();
    pursuit_pass(&mut store, params, Rect::default(), 2_000_000);
    let p = store.read_predator(0);
    assert_eq!(p.vel, Vec2i { x: params.max_velocity, y: params.min_velocity });
}

/// A boid far outside the simulation rectangle receives a correction
/// strictly toward the interior on each offending axis.
#[test]
fn boundary_turns_strictly_inward() {
    let mut store = AgentStore::new(2, 0);
    store.write_boid(0, agent_at(200_000_000, 0, 0, 0));
    store.write_boid(1, agent_at(-200_000_000, -200_000_000, 0, 0));
    let params = BoidParams::default();
    flocking_pass(&mut store, params, Rect::default());
    let right_stray = store.read_boid(0);
    let corner_stray = store.read_boid(1);
    assert_eq!(right_stray.vel, Vec2i { x: -params.turn_factor, y: 0 });
    assert!(corner_stray.vel.x > 0 && corner_stray.vel.y > 0);
    assert_eq!(corner_stray.vel, Vec2i { x: params.turn_factor, y: params.turn_factor });
}

/// Zeroing the centering factor removes exactly the cohesion
/// contribution and nothing else.
#[test]
fn zero_centering_removes_cohesion() {
    let mk = || {
        let mut store = AgentStore::new(2, 0);
        store.write_boid(0, agent_at(0, 0, 0, 0));
        store.write_boid(1, agent_at(4_000_000, 0, 0, 0));
        store
    };
    let with_cohesion = BoidParams::default();
    let without = BoidParams { centering_factor: 0, ..with_cohesion };

    let mut s1 = mk();
    flocking_pass(&mut s1, with_cohesion, Rect::default());
    // Only cohesion acts here: 9 millionths of the four-unit gap.
    assert_eq!(s1.read_boid(0).vel, Vec2i { x: 36, y: 0 });
    assert_eq!(s1.read_boid(1).vel, Vec2i { x: -36, y: 0 });

    let mut s2 = mk();
    flocking_pass(&mut s2, without, Rect::default());
    assert_eq!(s2.read_boid(0).vel, Vec2i { x: 0, y: 0 });
    assert_eq!(s2.read_boid(1).vel, Vec2i { x: 0, y: 0 });
}

/// A captured boid keeps being updated but no longer contributes to a
/// neighbour's accumulation.
#[test]
fn captured_boid_excluded_from_flocking() {
    let mk = |captured: bool| {
        let mut store = AgentStore::new(2, 0);
        store.write_boid(0, agent_at(0, 0, 0, 0));
        store.write_boid(1, agent_at(500_000, 0, 0, 0));
        store.captured[1] = captured;
        store
    };
    let params = BoidParams { protected_range: 2_000_000, ..BoidParams::default() };

    let mut live = mk(false);
    flocking_pass(&mut live, params, Rect::default());
    assert_eq!(live.read_boid(0).vel, Vec2i { x: -6_500, y: 0 });

    let mut caught = mk(true);
    flocking_pass(&mut caught, params, Rect::default());
    assert_eq!(caught.read_boid(0).vel, Vec2i { x: 0, y: 0 });
    // The captured boid itself still flocks off the live one.
    assert_eq!(caught.read_boid(1).vel, Vec2i { x: 6_500, y: 0 });
}

/// A capture counter already at its ceiling stays there.
#[test]
fn capture_counter_saturates() {
    let mut store = AgentStore::new(1, 1);
    store.write_boid(0, agent_at(0, 0, 0, 0));
    store.write_predator(0, agent_at(1_000_000, 0, 0, 0));
    store.targets[0] = 0;
    store.captures[0] = u32::MAX;
    pursuit_pass(&mut store, PredatorParams::default(), Rect::default(), 2_000_000);
    assert!(store.is_captured(0));
    assert_eq!(store.captures_of(0), u32::MAX);
}

/// Two predators capturing the same boid in one pass each count it;
/// the flag is simply set.
#[test]
fn simultaneous_capture_counts_for_both() {
    let mut store = AgentStore::new(1, 2);
    store.write_boid(0, agent_at(0, 0, 0, 0));
    store.write_predator(0, agent_at(1_000_000, 0, 0, 0));
    store.write_predator(1, agent_at(-1_000_000, 0, 0, 0));
    store.targets[0] = 0;
    store.targets[1] = 0;
    pursuit_pass(&mut store, PredatorParams::default(), Rect::default(), 2_000_000);
    assert!(store.is_captured(0));
    assert_eq!(store.captures_of(0), 1);
    assert_eq!(store.captures_of(1), 1);
}

/// A contradictory velocity range (minimum above maximum) still yields
/// the defined clamp result - the high bound - rather than a fault.
#[test]
fn degenerate_velocity_range_is_defined() {
    let mut store = AgentStore::new(1, 0);
    store.write_boid(0, agent_at(0, 0, 100_000, -100_000));
    let params = BoidParams {
        min_velocity: 500_000,
        max_velocity: -500_000,
        ..BoidParams::default()
    };
    flocking_pass(&mut store, params, Rect::default());
    let a = store.read_boid(0);
    assert_eq!(a.vel, Vec2i { x: -500_000, y: -500_000 });
}
