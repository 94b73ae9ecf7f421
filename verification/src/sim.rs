//! The simulation driver: a fixed count of deterministic Velocity-Verlet
//! steps over two gravitationally interacting bodies, recording both
//! bodies' positions after every step.
//!
//! One step evaluates the force once from the pre-update state of both
//! bodies and then applies the *same, unnegated* force vector to each of
//! them. Newton's third law would demand the opposite sign for the second
//! body; the unnegated shared force is a known physical inconsistency of
//! this simulator, kept deliberately so that recorded trajectories stay
//! reproducible bit for bit. The driver is parameterized by a
//! configuration (both body states and the gravitational constant);
//! `earth_moon` supplies the documented default Earth–Moon scenario.

use vstd::prelude::*;

use crate::body::gravitational_force;
use crate::body::spec_gravitational_force;
use crate::body::Body;
use crate::vec2::Vector2D;

verus! {

/// The bit pattern of the gravitational constant, 6.67430e-11.
pub const G_BITS: u64 = 0x3dd2_589e_ffed_8acc;

/// The bit pattern of the Earth's mass, 5.972e24.
pub const EARTH_MASS_BITS: u64 = 0x4513_c27b_1327_2fb6;

/// The bit pattern of the Moon's mass, 7.342e22.
pub const MOON_MASS_BITS: u64 = 0x44af_1836_5c98_5637;

/// The bit pattern of the Moon's initial x position, 3.844e8.
pub const MOON_X0_BITS: u64 = 0x41b6_e97a_8000_0000;

/// The bit pattern of the Moon's initial y velocity, 1022.0.
pub const MOON_VY0_BITS: u64 = 0x408f_f000_0000_0000;

/// The bit pattern of 0.0.
pub const ZERO_BITS: u64 = 0;

/// A complete description of one simulation run: the two initial body
/// states and the gravitational constant.
#[derive(Clone, Copy, Debug, PartialEq, Eq, Structural)]
pub struct SimConfig {
    pub body1: Body,
    pub body2: Body,
    pub g: u64,
}

impl SimConfig {
    /// The default Earth–Moon scenario: the Earth at the origin at rest
    /// with mass 5.972e24; the Moon at (3.844e8, 0) with velocity
    /// (0, 1022.0) and mass 7.342e22; G = 6.67430e-11.
    pub open spec fn spec_earth_moon() -> SimConfig {
        SimConfig {
            body1: Body {
                pos: Vector2D { x: ZERO_BITS, y: ZERO_BITS },
                vel: Vector2D { x: ZERO_BITS, y: ZERO_BITS },
                mass: EARTH_MASS_BITS,
            },
            body2: Body {
                pos: Vector2D { x: MOON_X0_BITS, y: ZERO_BITS },
                vel: Vector2D { x: ZERO_BITS, y: MOON_VY0_BITS },
                mass: MOON_MASS_BITS,
            },
            g: G_BITS,
        }
    }

    /// Builds the default Earth–Moon configuration.
    pub fn earth_moon() -> (r: SimConfig)
        ensures
            r == SimConfig::spec_earth_moon(),
    {
        SimConfig {
            body1: Body::new(
                Vector2D::new(ZERO_BITS, ZERO_BITS),
                Vector2D::new(ZERO_BITS, ZERO_BITS),
                EARTH_MASS_BITS,
            ),
            body2: Body::new(
                Vector2D::new(MOON_X0_BITS, ZERO_BITS),
                Vector2D::new(ZERO_BITS, MOON_VY0_BITS),
                MOON_MASS_BITS,
            ),
            g: G_BITS,
        }
    }
}

/// One simulation step: the force is evaluated once from the current
/// state of both bodies, then the same unnegated force is applied to
/// each body's Verlet update.
pub open spec fn spec_step(b1: Body, b2: Body, g: u64, dt: u64) -> (Body, Body) {
    let force = spec_gravitational_force(b1, b2, g);
    (b1.spec_verlet(force, dt), b2.spec_verlet(force, dt))
}

/// The pair of body states after `n` simulation steps of length `dt`
/// from the configuration's initial states.
pub open spec fn spec_state_after(cfg: SimConfig, dt: u64, n: nat) -> (Body, Body)
    decreases n,
{
    if n == 0 {
        (cfg.body1, cfg.body2)
    } else {
        let prev = spec_state_after(cfg, dt, (n - 1) as nat);
        spec_step(prev.0, prev.1, cfg.g, dt)
    }
}

/// The recorded x samples of the first body over `steps` steps: the i-th
/// sample is the position after step i+1 (the initial state is not
/// recorded).
pub open spec fn spec_body1_xs(cfg: SimConfig, dt: u64, steps: nat) -> Seq<u64> {
    Seq::new(steps, |i: int| spec_state_after(cfg, dt, (i + 1) as nat).0.pos.x)
}

/// The recorded y samples of the first body.
pub open spec fn spec_body1_ys(cfg: SimConfig, dt: u64, steps: nat) -> Seq<u64> {
    Seq::new(steps, |i: int| spec_state_after(cfg, dt, (i + 1) as nat).0.pos.y)
}

/// The recorded x samples of the second body.
pub open spec fn spec_body2_xs(cfg: SimConfig, dt: u64, steps: nat) -> Seq<u64> {
    Seq::new(steps, |i: int| spec_state_after(cfg, dt, (i + 1) as nat).1.pos.x)
}

/// The recorded y samples of the second body.
pub open spec fn spec_body2_ys(cfg: SimConfig, dt: u64, steps: nat) -> Seq<u64> {
    Seq::new(steps, |i: int| spec_state_after(cfg, dt, (i + 1) as nat).1.pos.y)
}

/// The number of steps a requested count actually runs: a negative
/// request runs no steps.
pub open spec fn spec_step_count(steps: i32) -> nat {
    if steps >= 0 {
        steps as nat
    } else {
        0
    }
}

/// Runs `steps` simulation steps of length `dt` (given as a binary64 bit
/// pattern) from the given configuration and returns the four recorded
/// trajectories, in order: body 1 x, body 1 y, body 2 x, body 2 y. Each
/// holds one sample per step, in step order, sampled after the step's
/// update. A negative `steps` runs nothing and returns four empty
/// trajectories.
pub fn simulate(cfg: &SimConfig, dt: u64, steps: i32) -> (r: Vec<Vec<u64>>)
    ensures
        r@.len() == 4,
        r@[0]@ == spec_body1_xs(*cfg, dt, spec_step_count(steps)),
        r@[1]@ == spec_body1_ys(*cfg, dt, spec_step_count(steps)),
        r@[2]@ == spec_body2_xs(*cfg, dt, spec_step_count(steps)),
        r@[3]@ == spec_body2_ys(*cfg, dt, spec_step_count(steps)),
{
    let n: usize = if steps >= 0 {
        steps as usize
    } else {
        0
    };
    let mut body1 = cfg.body1;
    let mut body2 = cfg.body2;
    let mut body1_x: Vec<u64> = Vec::new();
    let mut body1_y: Vec<u64> = Vec::new();
    let mut body2_x: Vec<u64> = Vec::new();
    let mut body2_y: Vec<u64> = Vec::new();
    let mut i: usize = 0;
    while i < n
        invariant
            i <= n,
            n as nat == spec_step_count(steps),
            body1 == spec_state_after(*cfg, dt, i as nat).0,
            body2 == spec_state_after(*cfg, dt, i as nat).1,
            body1_x@ == spec_body1_xs(*cfg, dt, i as nat),
            body1_y@ == spec_body1_ys(*cfg, dt, i as nat),
            body2_x@ == spec_body2_xs(*cfg, dt, i as nat),
            body2_y@ == spec_body2_ys(*cfg, dt, i as nat),
        decreases n - i,
    {
        let force = gravitational_force(&body1, &body2, cfg.g);
        body1.verlet_update(&force, dt);
        body2.verlet_update(&force, dt);

        body1_x.push(body1.pos.x);
        body1_y.push(body1.pos.y);
        body2_x.push(body2.pos.x);
        body2_y.push(body2.pos.y);

        i = i + 1;
        proof {
            assert(body1_x@ =~= spec_body1_xs(*cfg, dt, i as nat));
            assert(body1_y@ =~= spec_body1_ys(*cfg, dt, i as nat));
            assert(body2_x@ =~= spec_body2_xs(*cfg, dt, i as nat));
            assert(body2_y@ =~= spec_body2_ys(*cfg, dt, i as nat));
        }
    }
    let mut out: Vec<Vec<u64>> = Vec::new();
    out.push(body1_x);
    out.push(body1_y);
    out.push(body2_x);
    out.push(body2_y);
    out
}

/// Runs the fixed Earth–Moon scenario for `steps` steps of `dt` seconds
/// (`dt` given as a binary64 bit pattern) and returns the four recorded
/// trajectories, in order: body 1 x, body 1 y, body 2 x, body 2 y.
pub fn simulate_moon_earth(dt: u64, steps: i32) -> (r: Vec<Vec<u64>>)
    ensures
        r@.len() == 4,
        r@[0]@ == spec_body1_xs(SimConfig::spec_earth_moon(), dt, spec_step_count(steps)),
        r@[1]@ == spec_body1_ys(SimConfig::spec_earth_moon(), dt, spec_step_count(steps)),
        r@[2]@ == spec_body2_xs(SimConfig::spec_earth_moon(), dt, spec_step_count(steps)),
        r@[3]@ == spec_body2_ys(SimConfig::spec_earth_moon(), dt, spec_step_count(steps)),
{
    let cfg = SimConfig::earth_moon();
    simulate(&cfg, dt, steps)
}

/// Determinism: the recorded trajectories are a function of the
/// configuration, the time step, and the step count alone, so two runs
/// with the same inputs record identical samples.
pub proof fn lemma_simulate_deterministic(
    cfg: SimConfig,
    dt: u64,
    steps: i32,
    a: Vec<Vec<u64>>,
    b: Vec<Vec<u64>>,
)
    requires
        a@.len() == 4,
        a@[0]@ == spec_body1_xs(cfg, dt, spec_step_count(steps)),
        a@[1]@ == spec_body1_ys(cfg, dt, spec_step_count(steps)),
        a@[2]@ == spec_body2_xs(cfg, dt, spec_step_count(steps)),
        a@[3]@ == spec_body2_ys(cfg, dt, spec_step_count(steps)),
        b@.len() == 4,
        b@[0]@ == spec_body1_xs(cfg, dt, spec_step_count(steps)),
        b@[1]@ == spec_body1_ys(cfg, dt, spec_step_count(steps)),
        b@[2]@ == spec_body2_xs(cfg, dt, spec_step_count(steps)),
        b@[3]@ == spec_body2_ys(cfg, dt, spec_step_count(steps)),
    ensures
        forall|j: int| 0 <= j < 4 ==> a@[j]@ == b@[j]@,
{
}

/// Trajectory length invariant: every recorded trajectory holds exactly
/// one sample per step that ran, for any step count.
pub proof fn lemma_trajectory_lengths(cfg: SimConfig, dt: u64, steps: nat)
    ensures
        spec_body1_xs(cfg, dt, steps).len() == steps,
        spec_body1_ys(cfg, dt, steps).len() == steps,
        spec_body2_xs(cfg, dt, steps).len() == steps,
        spec_body2_ys(cfg, dt, steps).len() == steps,
{
}

/// Zero-step boundary: a run of zero steps records nothing for either
/// body.
pub proof fn lemma_zero_steps_empty(cfg: SimConfig, dt: u64)
    ensures
        spec_body1_xs(cfg, dt, 0) == Seq::<u64>::empty(),
        spec_body1_ys(cfg, dt, 0) == Seq::<u64>::empty(),
        spec_body2_xs(cfg, dt, 0) == Seq::<u64>::empty(),
        spec_body2_ys(cfg, dt, 0) == Seq::<u64>::empty(),
{
    assert(spec_body1_xs(cfg, dt, 0) =~= Seq::<u64>::empty());
    assert(spec_body1_ys(cfg, dt, 0) =~= Seq::<u64>::empty());
    assert(spec_body2_xs(cfg, dt, 0) =~= Seq::<u64>::empty());
    assert(spec_body2_ys(cfg, dt, 0) =~= Seq::<u64>::empty());
}

/// Entry-point round trip: what the fixed Earth–Moon entry point records
/// is exactly what the general driver records for the default Earth–Moon
/// configuration, sequence for sequence.
pub proof fn lemma_entry_point_matches_driver(
    dt: u64,
    steps: i32,
    entry: Vec<Vec<u64>>,
    driver: Vec<Vec<u64>>,
)
    requires
        entry@.len() == 4,
        entry@[0]@ == spec_body1_xs(SimConfig::spec_earth_moon(), dt, spec_step_count(steps)),
        entry@[1]@ == spec_body1_ys(SimConfig::spec_earth_moon(), dt, spec_step_count(steps)),
        entry@[2]@ == spec_body2_xs(SimConfig::spec_earth_moon(), dt, spec_step_count(steps)),
        entry@[3]@ == spec_body2_ys(SimConfig::spec_earth_moon(), dt, spec_step_count(steps)),
        driver@.len() == 4,
        driver@[0]@ == spec_body1_xs(SimConfig::spec_earth_moon(), dt, spec_step_count(steps)),
        driver@[1]@ == spec_body1_ys(SimConfig::spec_earth_moon(), dt, spec_step_count(steps)),
        driver@[2]@ == spec_body2_xs(SimConfig::spec_earth_moon(), dt, spec_step_count(steps)),
        driver@[3]@ == spec_body2_ys(SimConfig::spec_earth_moon(), dt, spec_step_count(steps)),
    ensures
        forall|j: int| 0 <= j < 4 ==> entry@[j]@ == driver@[j]@,
{
}

} // verus!
