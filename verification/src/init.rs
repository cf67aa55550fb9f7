//! The initialization kernel: seeds every agent's position and
//! velocity from a deterministic per-slot stream, so re-seeding is
//! idempotent.

use vstd::prelude::*;

verus! {

use crate::MAX_AGENTS;
use crate::vecmath::Vec2i;
use crate::params::{BoidParams, PredatorParams, Rect};
use crate::store::{Agent, AgentStore};

/// Multiplier of the linear-congruential seeding generator.
pub const SEED_MUL: u64 = 6364136223846793005;

/// Increment of the linear-congruential seeding generator.
pub const SEED_INC: u64 = 1442695040888963407;

/// One step of the seeding generator, on the ring of 64-bit words.
pub open spec fn seed_step(s: int) -> int {
    (SEED_MUL * s + SEED_INC) % 0x1_0000_0000_0000_0000
}

/// The raw 64-bit word drawn for stream element `j` of `seed`.
pub open spec fn seed_word(seed: u64, j: int) -> int {
    seed_step((seed + j) % 0x1_0000_0000_0000_0000)
}

/// A word folded into the span `[lo, hi]`; a degenerate span (`lo > hi`)
/// yields the defined result `lo`.
pub open spec fn in_span(h: int, lo: int, hi: int) -> int {
    if lo <= hi {
        lo + h % (hi - lo + 1)
    } else {
        lo
    }
}

/// The agent that seeding writes into slot `idx`: position uniform over
/// the seeded area, velocity uniform over `[min_v, max_v]` per axis.
pub open spec fn seeded_agent(seed: u64, idx: int, area: Rect, min_v: int, max_v: int) -> Agent {
    Agent {
        pos: Vec2i {
            x: in_span(seed_word(seed, 4 * idx), area.left as int, area.right as int) as i64,
            y: in_span(seed_word(seed, 4 * idx + 1), area.bottom as int, area.top as int) as i64,
        },
        vel: Vec2i {
            x: in_span(seed_word(seed, 4 * idx + 2), min_v, max_v) as i64,
            y: in_span(seed_word(seed, 4 * idx + 3), min_v, max_v) as i64,
        },
    }
}

/// One step of the seeding generator on machine words.
fn seed_step_exec(s: u64) -> (r: u64)
    ensures
        r as int == seed_step(s as int),
{
    proof {
        assert((SEED_MUL as int) * (s as int) < 0x8000_0000_0000_0000_0000_0000_0000_0000)
            by (nonlinear_arith)
            requires
                s <= 0xFFFF_FFFF_FFFF_FFFFu64,
        ;
    }
    let wide: u128 = (SEED_MUL as u128) * (s as u128) + (SEED_INC as u128);
    (wide % 0x1_0000_0000_0000_0000u128) as u64
}

/// The raw word for stream element `j` on machine words.
fn seed_word_exec(seed: u64, j: u64) -> (r: u64)
    ensures
        r as int == seed_word(seed, j as int),
{
    let s: u64 = ((seed as u128 + j as u128) % 0x1_0000_0000_0000_0000u128) as u64;
    seed_step_exec(s)
}

/// Folds a word into a span on machine words.
fn in_span_exec(h: u64, lo: i64, hi: i64) -> (r: i64)
    requires
        -2_000_000_000_000 <= lo <= 2_000_000_000_000,
        -2_000_000_000_000 <= hi <= 2_000_000_000_000,
    ensures
        r as int == in_span(h as int, lo as int, hi as int),
        lo <= hi ==> lo <= r <= hi,
        lo > hi ==> r == lo,
{
    if lo <= hi {
        let width: u64 = ((hi as i128 - lo as i128 + 1) as u128) as u64;
        let off: u64 = h % width;
        lo + (off as i64)
    } else {
        lo
    }
}

/// Seeds every boid: position uniform over `area`, velocity uniform over
/// `[min_velocity, max_velocity]` per axis.  Overwrites, never
/// accumulates, so re-running with the same seed is idempotent.
pub fn init_boids(store: &mut AgentStore, seed: u64, area: Rect, params: BoidParams)
    requires
        old(store).wf(),
        area.valid(),
        params.valid(),
    ensures
        final(store).wf(),
        final(store).boids@.len() == old(store).boids@.len(),
        forall|i: int|
            0 <= i < old(store).boids@.len() ==> #[trigger] final(store).boids@[i]
                == seeded_agent(
                seed,
                i,
                area,
                params.min_velocity as int,
                params.max_velocity as int,
            ),
        final(store).predators@ == old(store).predators@,
        final(store).captured@ == old(store).captured@,
        final(store).targets@ == old(store).targets@,
        final(store).captures@ == old(store).captures@,
{
    let n: usize = store.num_boids();
    let mut i: usize = 0;
    while i < n
        invariant
            store.wf(),
            n == store.boids@.len(),
            i <= n,
            area.valid(),
            params.valid(),
            forall|k: int|
                0 <= k < i ==> #[trigger] store.boids@[k] == seeded_agent(
                    seed,
                    k,
                    area,
                    params.min_velocity as int,
                    params.max_velocity as int,
                ),
            store.predators@ == old(store).predators@,
            store.captured@ == old(store).captured@,
            store.targets@ == old(store).targets@,
            store.captures@ == old(store).captures@,
        decreases n - i,
    {
        let a = seeded_agent_exec(seed, i, area, params.min_velocity, params.max_velocity);
        store.write_boid(i, a);
        i = i + 1;
    }
}

/// Seeds every predator, drawing from a stream disjoint from the boids'
/// (slots are offset by the maximum agent count).
pub fn init_predators(store: &mut AgentStore, seed: u64, area: Rect, params: PredatorParams)
    requires
        old(store).wf(),
        area.valid(),
        params.valid(),
    ensures
        final(store).wf(),
        final(store).predators@.len() == old(store).predators@.len(),
        forall|p: int|
            0 <= p < old(store).predators@.len() ==> #[trigger] final(store).predators@[p]
                == seeded_agent(
                seed,
                p + MAX_AGENTS,
                area,
                params.min_velocity as int,
                params.max_velocity as int,
            ),
        final(store).boids@ == old(store).boids@,
        final(store).captured@ == old(store).captured@,
        final(store).targets@ == old(store).targets@,
        final(store).captures@ == old(store).captures@,
{
    let n: usize = store.num_predators();
    let mut p: usize = 0;
    while p < n
        invariant
            store.wf(),
            n == store.predators@.len(),
            p <= n,
            area.valid(),
            params.valid(),
            forall|k: int|
                0 <= k < p ==> #[trigger] store.predators@[k] == seeded_agent(
                    seed,
                    k + MAX_AGENTS,
                    area,
                    params.min_velocity as int,
                    params.max_velocity as int,
                ),
            store.boids@ == old(store).boids@,
            store.captured@ == old(store).captured@,
            store.targets@ == old(store).targets@,
            store.captures@ == old(store).captures@,
        decreases n - p,
    {
        let a = seeded_agent_exec(
            seed,
            p + MAX_AGENTS,
            area,
            params.min_velocity,
            params.max_velocity,
        );
        store.write_predator(p, a);
        p = p + 1;
    }
}

/// Computes [`seeded_agent`] on machine words; the result always fits
/// the coordinate range, so the store stays well formed.
fn seeded_agent_exec(seed: u64, idx: usize, area: Rect, min_v: i64, max_v: i64) -> (a: Agent)
    requires
        idx <= 2 * MAX_AGENTS,
        area.valid(),
        -1_000_000_000 <= min_v <= 1_000_000_000,
        -1_000_000_000 <= max_v <= 1_000_000_000,
    ensures
        a == seeded_agent(seed, idx as int, area, min_v as int, max_v as int),
        a.bounded(),
{
    let j: u64 = 4 * (idx as u64);
    let px: i64 = in_span_exec(seed_word_exec(seed, j), area.left, area.right);
    let py: i64 = in_span_exec(seed_word_exec(seed, j + 1), area.bottom, area.top);
    let vx: i64 = in_span_exec(seed_word_exec(seed, j + 2), min_v, max_v);
    let vy: i64 = in_span_exec(seed_word_exec(seed, j + 3), min_v, max_v);
    Agent { pos: Vec2i { x: px, y: py }, vel: Vec2i { x: vx, y: vy } }
}

/// Seeding is idempotent: two agent arrays written by the seeding kernel
/// from the same seed, area and velocity span are identical, whether or
/// not the kernel had run before.
pub proof fn lemma_seeding_idempotent(
    s1: Seq<Agent>,
    s2: Seq<Agent>,
    seed: u64,
    area: Rect,
    min_v: int,
    max_v: int,
)
    requires
        s1.len() == s2.len(),
        forall|i: int| 0 <= i < s1.len() ==> #[trigger] s1[i] == seeded_agent(
            seed,
            i,
            area,
            min_v,
            max_v,
        ),
        forall|i: int| 0 <= i < s2.len() ==> #[trigger] s2[i] == seeded_agent(
            seed,
            i,
            area,
            min_v,
            max_v,
        ),
    ensures
        s1 == s2,
{
    assert(s1 =~= s2);
}

} // verus!
