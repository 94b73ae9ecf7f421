//! A point mass and its Velocity-Verlet update, and the Newtonian
//! gravitational force law between two such masses.
//!
//! The update is the simplified semi-implicit variant: both the position
//! and the velocity update use the force evaluated at the start of the
//! step; the force is not re-evaluated at the new position.

use vstd::prelude::*;

use crate::fp::div_bits;
use crate::fp::fp_div;
use crate::fp::fp_mul;
use crate::fp::mul_bits;
use crate::fp::F64_HALF;
use crate::fp::F64_ONE;
use crate::vec2::Vector2D;

verus! {

/// The mutable state of one point mass: position, velocity, and mass,
/// each scalar a binary64 bit pattern. A mass whose bit pattern encodes
/// zero or a negative number gives a non-finite or nonsensical
/// acceleration; nothing here guards against that degenerate input.
#[derive(Clone, Copy, Debug, PartialEq, Eq, Structural)]
pub struct Body {
    pub pos: Vector2D,
    pub vel: Vector2D,
    pub mass: u64,
}

impl Body {
    /// The state after one Velocity-Verlet step of length `dt` under
    /// `force`:
    /// acceleration `a = force * (1/mass)`,
    /// position `p' = p + v*dt + a*(0.5*dt*dt)`,
    /// velocity `v' = v + a*dt`.
    pub open spec fn spec_verlet(self, force: Vector2D, dt: u64) -> Body {
        let inv_mass = div_bits(F64_ONE, self.mass);
        let acc = force.spec_mul(Vector2D { x: inv_mass, y: inv_mass });
        let half_dt2 = mul_bits(mul_bits(F64_HALF, dt), dt);
        let pos_delta = self.vel.spec_mul(Vector2D { x: dt, y: dt }).spec_add(
            acc.spec_mul(Vector2D { x: half_dt2, y: half_dt2 }),
        );
        let vel_delta = acc.spec_mul(Vector2D { x: dt, y: dt });
        Body {
            pos: self.pos.spec_add(pos_delta),
            vel: self.vel.spec_add(vel_delta),
            mass: self.mass,
        }
    }

    /// Builds a body from its initial position, velocity, and mass.
    pub fn new(pos: Vector2D, vel: Vector2D, mass: u64) -> (r: Body)
        ensures
            r == (Body { pos, vel, mass }),
    {
        Body { pos, vel, mass }
    }

    /// Advances `self` in place by one Velocity-Verlet step of length
    /// `dt` under `force`. The mass is unchanged.
    pub fn verlet_update(&mut self, force: &Vector2D, dt: u64)
        ensures
            *final(self) == old(self).spec_verlet(*force, dt),
    {
        let inv_mass = fp_div(F64_ONE, self.mass);
        let acc = force.mul(&Vector2D::new(inv_mass, inv_mass));

        let half_dt2 = fp_mul(fp_mul(F64_HALF, dt), dt);
        let pos_delta = self.vel.mul(&Vector2D::new(dt, dt)).add(
            &acc.mul(&Vector2D::new(half_dt2, half_dt2)),
        );
        self.pos = self.pos.add(&pos_delta);

        let vel_delta = acc.mul(&Vector2D::new(dt, dt));
        self.vel = self.vel.add(&vel_delta);
    }
}

/// The gravitational force that `body2` exerts on `body1` under the
/// gravitational constant `g`: with `r = body1.pos - body2.pos` and
/// `m = mag(r)`, the force is `norm(r)` scaled componentwise by
/// `g * m1 * m2 / (m * m)`. When the positions coincide, `m` encodes
/// zero and the divisions yield non-finite components; coincident bodies
/// are a degenerate input, not a handled error.
pub open spec fn spec_gravitational_force(body1: Body, body2: Body, g: u64) -> Vector2D {
    let r = body1.pos.spec_sub(body2.pos);
    let r_mag = r.spec_mag();
    let force_mag = div_bits(
        mul_bits(mul_bits(g, body1.mass), body2.mass),
        mul_bits(r_mag, r_mag),
    );
    r.spec_norm().spec_mul(Vector2D { x: force_mag, y: force_mag })
}

/// Computes the gravitational force that `body2` exerts on `body1`.
pub fn gravitational_force(body1: &Body, body2: &Body, g: u64) -> (r: Vector2D)
    ensures
        r == spec_gravitational_force(*body1, *body2, g),
{
    let rv = body1.pos.sub(&body2.pos);
    let r_mag = rv.mag();
    let force_mag = fp_div(fp_mul(fp_mul(g, body1.mass), body2.mass), fp_mul(r_mag, r_mag));
    rv.norm().mul(&Vector2D::new(force_mag, force_mag))
}

} // verus!
