use boids::frame::{ReadbackState, Simulation};
use boids::init::{init_boids, init_predators};
use boids::params::{BoidParams, PredatorParams, Rect, ViewParams};
use boids::store::{Agent, AgentStore};
use boids::vecmath::Vec2i;
use boids::NO_TARGET;

fn agent_at(x: i64, y: i64, vx: i64, vy: i64) -> Agent {
    Agent { pos: Vec2i { x, y }, vel: Vec2i { x: vx, y: vy } }
}

/// Seeding twice from the same seed writes identical agent arrays.
#[test]
fn seeding_is_idempotent() {
    let area = Rect::default();
    let bp = BoidParams::default();
    let pp = PredatorParams::default();

    let mut once = AgentStore::new(40, 3);
    init_boids(&mut once, 7, area, bp);
    init_predators(&mut once, 7, area, pp);

    let mut twice = AgentStore::new(40, 3);
    init_boids(&mut twice, 7, area, bp);
    init_predators(&mut twice, 7, area, pp);
    init_boids(&mut twice, 7, area, bp);
    init_predators(&mut twice, 7, area, pp);

    assert_eq!(once.boids, twice.boids);
    assert_eq!(once.predators, twice.predators);
}

/// Different seeds give different swarms.
#[test]
fn seeding_depends_on_seed() {
    let area = Rect::default();
    let bp = BoidParams::default();
    let mut a = AgentStore::new(16, 0);
    let mut b = AgentStore::new(16, 0);
    init_boids(&mut a, 1, area, bp);
    init_boids(&mut b, 2, area, bp);
    assert_ne!(a.boids, b.boids);
}

/// Seeded positions land in the area, velocities in the parameter span.
#[test]
fn seeding_respects_spans() {
    let sim = Simulation::new(64, 4, 99);
    let area = sim.area;
    let bp = sim.boid_params;
    for a in sim.store.boids.iter() {
        assert!(area.left <= a.pos.x && a.pos.x <= area.right);
        assert!(area.bottom <= a.pos.y && a.pos.y <= area.top);
        assert!(bp.min_velocity <= a.vel.x && a.vel.x <= bp.max_velocity);
        assert!(bp.min_velocity <= a.vel.y && a.vel.y <= bp.max_velocity);
    }
    let pp = sim.predator_params;
    for a in sim.store.predators.iter() {
        assert!(area.left <= a.pos.x && a.pos.x <= area.right);
        assert!(pp.min_velocity <= a.vel.x && a.vel.x <= pp.max_velocity);
    }
}

/// A fresh simulation starts clean: no captures, no targets, zeroed
/// statistics.
#[test]
fn new_simulation_is_clean() {
    let sim = Simulation::new(10, 2, 5);
    assert_eq!(sim.store.boids.len(), 10);
    assert_eq!(sim.store.predators.len(), 2);
    assert!(sim.store.captured.iter().all(|c| !c));
    assert!(sim.store.targets.iter().all(|t| *t == NO_TARGET));
    assert!(sim.store.captures.iter().all(|c| *c == 0));
    assert_eq!(sim.stats(), &vec![0, 0]);
    assert_eq!(sim.readback, ReadbackState::Idle);
}

/// Re-running a frame from an identical snapshot under identical
/// parameters yields identical agent arrays.
#[test]
fn frame_is_deterministic() {
    let mut a = Simulation::new(48, 3, 1234);
    let mut b = Simulation::new(48, 3, 1234);
    for _ in 0..5 {
        a.step_frame();
        b.step_frame();
    }
    assert_eq!(a.store.boids, b.store.boids);
    assert_eq!(a.store.predators, b.store.predators);
    assert_eq!(a.store.targets, b.store.targets);
    assert_eq!(a.store.captures, b.store.captures);
    assert_eq!(a.store.captured, b.store.captured);
}

/// Across frames, capture counters never decrease and captured flags
/// never clear.
#[test]
fn captures_are_monotone_across_frames() {
    let mut sim = Simulation::new(0, 0, 0);
    sim.store = AgentStore::new(3, 1);
    sim.stats = vec![0];
    sim.store.write_boid(0, agent_at(1_000_000, 0, 0, 0));
    sim.store.write_boid(1, agent_at(8_000_000, 0, 0, 0));
    sim.store.write_boid(2, agent_at(-30_000_000, 0, 0, 0));
    sim.store.write_predator(0, agent_at(0, 0, 0, 0));
    let mut last_captures = vec![0u32];
    let mut last_flags = vec![false, false, false];
    for _ in 0..20 {
        sim.step_frame();
        let captures: Vec<u32> = sim.store.captures.clone();
        let flags: Vec<bool> = sim.store.captured.clone();
        for p in 0..captures.len() {
            assert!(captures[p] >= last_captures[p]);
        }
        for b in 0..flags.len() {
            assert!(!last_flags[b] || flags[b]);
        }
        last_captures = captures;
        last_flags = flags;
    }
    // The adjacent boid was caught along the way.
    assert!(sim.store.captured[0]);
    assert!(sim.store.captures[0] >= 1);
}

/// Replacing the flocking parameters mid-run is wholesale and affects
/// exactly the next pass.
#[test]
fn parameter_replacement_is_wholesale() {
    let mut with_cohesion = Simulation::new(0, 0, 0);
    with_cohesion.store = AgentStore::new(2, 0);
    with_cohesion.stats = vec![];
    with_cohesion.store.write_boid(0, agent_at(0, 0, 0, 0));
    with_cohesion.store.write_boid(1, agent_at(4_000_000, 0, 0, 0));

    let mut without = Simulation::new(0, 0, 0);
    without.store = AgentStore::new(2, 0);
    without.stats = vec![];
    without.store.write_boid(0, agent_at(0, 0, 0, 0));
    without.store.write_boid(1, agent_at(4_000_000, 0, 0, 0));

    let stripped = BoidParams { centering_factor: 0, ..without.boid_params };
    without.set_boid_params(stripped);
    assert_eq!(without.boid_params, stripped);

    with_cohesion.step_frame();
    without.step_frame();
    assert_eq!(with_cohesion.store.boids[0].vel.x, 36);
    assert_eq!(without.store.boids[0].vel.x, 0);
}

/// The readback protocol: a request carries a point-in-time copy, a
/// delivered buffer replaces the statistics, and a failed transfer
/// keeps the last known good values.
#[test]
fn readback_keeps_last_good_on_failure() {
    let mut sim = Simulation::new(4, 2, 11);
    let snap = sim.request_stats();
    assert_eq!(snap, vec![0, 0]);
    assert_eq!(sim.readback, ReadbackState::Pending);

    sim.complete_stats(Some(vec![3, 5]));
    assert_eq!(sim.readback, ReadbackState::Idle);
    assert_eq!(sim.stats(), &vec![3, 5]);

    let _again = sim.request_stats();
    sim.complete_stats(None);
    assert_eq!(sim.readback, ReadbackState::Idle);
    assert_eq!(sim.stats(), &vec![3, 5]);

    // A buffer of the wrong width is treated as a failed transfer.
    let _w = sim.request_stats();
    sim.complete_stats(Some(vec![9]));
    assert_eq!(sim.stats(), &vec![3, 5]);
}

/// A snapshot is a faithful point-in-time copy, and restore brings the
/// store back wholesale.
#[test]
fn snapshot_and_restore_round_trip() {
    let mut store = AgentStore::new(6, 2);
    store.write_boid(3, agent_at(1, 2, 3, 4));
    store.targets[1] = 3;
    store.captures[0] = 7;
    let snap = store.snapshot();

    store.write_boid(3, agent_at(9, 9, 9, 9));
    store.captures[0] = 100;
    assert_ne!(store.boids, snap.boids);

    store.restore(&snap);
    assert_eq!(store.boids, snap.boids);
    assert_eq!(store.captures, snap.captures);
    assert_eq!(store.targets, snap.targets);
    assert_eq!(store.read_boid(3), agent_at(1, 2, 3, 4));
}

/// Rendering maps every agent through the view transform, boids first,
/// and mutates nothing.
#[test]
fn render_positions_maps_all_agents() {
    let mut sim = Simulation::new(0, 0, 0);
    sim.store = AgentStore::new(1, 1);
    sim.stats = vec![0];
    sim.store.write_boid(0, agent_at(10_000_000, 0, 0, 0));
    sim.store.write_predator(0, agent_at(-10_000_000, 20_000_000, 0, 0));
    let before = sim.store.snapshot();
    let pts = sim.render_positions();
    assert_eq!(pts.len(), 2);
    assert_eq!(pts[0], Vec2i { x: 100_000, y: 0 });
    assert_eq!(pts[1], Vec2i { x: -100_000, y: 200_000 });
    assert_eq!(sim.store.boids, before.boids);
    assert_eq!(sim.store.predators, before.predators);
}

/// The view transform never feeds back into the simulation: stepping
/// under different view parameters gives identical agent state.
#[test]
fn view_params_never_touch_simulation() {
    let mut a = Simulation::new(32, 2, 77);
    let mut b = Simulation::new(32, 2, 77);
    b.set_view_params(ViewParams { x_shift: 5_000_000, y_shift: -2_000_000, zoom: 50_000, time_modifier: 1 });
    a.step_frame();
    b.step_frame();
    assert_eq!(a.store.boids, b.store.boids);
    assert_eq!(a.store.predators, b.store.predators);
}
