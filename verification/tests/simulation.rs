use twobody::gravitational_force;
use twobody::simulate;
use twobody::simulate_moon_earth;
use twobody::Body;
use twobody::SimConfig;
use twobody::Vector2D;

const G: f64 = 6.67430e-11;
const EARTH_MASS: f64 = 5.972e24;
const MOON_MASS: f64 = 7.342e22;
const MOON_X0: f64 = 3.844e8;
const MOON_VY0: f64 = 1022.0;

fn run(dt: f64, steps: i32) -> Vec<Vec<f64>> {
    simulate_moon_earth(dt.to_bits(), steps)
        .into_iter()
        .map(|col| col.into_iter().map(f64::from_bits).collect())
        .collect()
}

#[test]
fn zero_steps_returns_four_empty_trajectories() {
    let out = run(100.0, 0);
    assert_eq!(out.len(), 4);
    for col in &out {
        assert!(col.is_empty());
    }
}

#[test]
fn negative_steps_returns_four_empty_trajectories() {
    let out = run(100.0, -3);
    assert_eq!(out.len(), 4);
    for col in &out {
        assert!(col.is_empty());
    }
}

#[test]
fn trajectory_lengths_equal_step_count() {
    for steps in [0i32, 1, 5, 17] {
        let out = run(100.0, steps);
        assert_eq!(out.len(), 4);
        for col in &out {
            assert_eq!(col.len(), steps as usize);
        }
    }
}

#[test]
fn repeated_calls_are_bit_identical() {
    let a = simulate_moon_earth((100.0f64).to_bits(), 10);
    let b = simulate_moon_earth((100.0f64).to_bits(), 10);
    assert_eq!(a, b);
}

#[test]
fn single_step_matches_hand_computed_verlet_update() {
    let dt = 100.0f64;
    let out = run(dt, 1);

    // The force from the initial state, by the documented formula.
    let rx = 0.0f64 - MOON_X0;
    let ry = 0.0f64;
    let r_mag = (rx * rx + ry * ry).sqrt();
    let force_mag = G * EARTH_MASS * MOON_MASS / (r_mag * r_mag);
    let fx = rx / r_mag * force_mag;
    let fy = ry / r_mag * force_mag;

    // The same unnegated force applied to both bodies.
    let e_ax = fx * (1.0 / EARTH_MASS);
    let e_ay = fy * (1.0 / EARTH_MASS);
    let e_x = 0.0f64 + (0.0f64 * dt + e_ax * (0.5 * dt * dt));
    let e_y = 0.0f64 + (0.0f64 * dt + e_ay * (0.5 * dt * dt));

    let m_ax = fx * (1.0 / MOON_MASS);
    let m_ay = fy * (1.0 / MOON_MASS);
    let m_x = MOON_X0 + (0.0f64 * dt + m_ax * (0.5 * dt * dt));
    let m_y = 0.0f64 + (MOON_VY0 * dt + m_ay * (0.5 * dt * dt));

    let close = |got: f64, want: f64| {
        (got - want).abs() <= 1e-9 * want.abs().max(1e-300)
    };
    assert!(close(out[0][0], e_x), "earth x: {} vs {}", out[0][0], e_x);
    assert!(close(out[1][0], e_y), "earth y: {} vs {}", out[1][0], e_y);
    assert!(close(out[2][0], m_x), "moon x: {} vs {}", out[2][0], m_x);
    assert!(close(out[3][0], m_y), "moon y: {} vs {}", out[3][0], m_y);
}

#[test]
fn moon_separation_stays_in_orbital_range() {
    let steps = 30000;
    let out = run(100.0, steps);
    for i in 0..steps as usize {
        let dx = out[2][i] - out[0][i];
        let dy = out[3][i] - out[1][i];
        let dist = (dx * dx + dy * dy).sqrt();
        assert!(
            1.0e8 < dist && dist < 1.0e9,
            "separation {dist} out of range at step {i}"
        );
    }
}

#[test]
fn entry_point_matches_direct_driver_invocation() {
    let dt = (100.0f64).to_bits();
    let entry = simulate_moon_earth(dt, 3);

    let cfg = SimConfig::earth_moon();
    let driver = simulate(&cfg, dt, 3);
    assert_eq!(entry, driver);

    // Drive the core by hand through the public pieces as well.
    let mut body1 = Body::new(
        Vector2D::new((0.0f64).to_bits(), (0.0f64).to_bits()),
        Vector2D::new((0.0f64).to_bits(), (0.0f64).to_bits()),
        EARTH_MASS.to_bits(),
    );
    let mut body2 = Body::new(
        Vector2D::new(MOON_X0.to_bits(), (0.0f64).to_bits()),
        Vector2D::new((0.0f64).to_bits(), MOON_VY0.to_bits()),
        MOON_MASS.to_bits(),
    );
    for i in 0..3usize {
        let force = gravitational_force(&body1, &body2, G.to_bits());
        body1.verlet_update(&force, dt);
        body2.verlet_update(&force, dt);
        assert_eq!(entry[0][i], body1.pos.x);
        assert_eq!(entry[1][i], body1.pos.y);
        assert_eq!(entry[2][i], body2.pos.x);
        assert_eq!(entry[3][i], body2.pos.y);
    }
}
