//! An immutable 2-D vector over binary64 scalars.
//!
//! Every operation returns a new vector; nothing is mutated in place.
//! Each executable operation's contract pins its result to the matching
//! spec-level composition of the primitive scalar operations, so callers
//! reason about vectors purely through the `spec_*` functions.

use vstd::prelude::*;

use crate::fp::add_bits;
use crate::fp::div_bits;
use crate::fp::fp_add;
use crate::fp::fp_div;
use crate::fp::fp_mul;
use crate::fp::fp_sqrt;
use crate::fp::fp_sub;
use crate::fp::mul_bits;
use crate::fp::sqrt_bits;
use crate::fp::sub_bits;

verus! {

/// A 2-D vector; each component is the bit pattern of a binary64 number.
#[derive(Clone, Copy, Debug, PartialEq, Eq, Structural)]
pub struct Vector2D {
    pub x: u64,
    pub y: u64,
}

impl Vector2D {
    /// The componentwise sum of `self` and `other`.
    pub open spec fn spec_add(self, other: Vector2D) -> Vector2D {
        Vector2D { x: add_bits(self.x, other.x), y: add_bits(self.y, other.y) }
    }

    /// The componentwise difference `self - other`.
    pub open spec fn spec_sub(self, other: Vector2D) -> Vector2D {
        Vector2D { x: sub_bits(self.x, other.x), y: sub_bits(self.y, other.y) }
    }

    /// The componentwise product of `self` and `other` (not a dot
    /// product; scaling by a scalar `s` is multiplication by the vector
    /// `(s, s)`).
    pub open spec fn spec_mul(self, other: Vector2D) -> Vector2D {
        Vector2D { x: mul_bits(self.x, other.x), y: mul_bits(self.y, other.y) }
    }

    /// The Euclidean magnitude `sqrt(x*x + y*y)`.
    pub open spec fn spec_mag(self) -> u64 {
        sqrt_bits(add_bits(mul_bits(self.x, self.x), mul_bits(self.y, self.y)))
    }

    /// `self` scaled componentwise by the reciprocal of its magnitude.
    /// For the zero vector the division yields non-finite components;
    /// nothing here guards against that degenerate input.
    pub open spec fn spec_norm(self) -> Vector2D {
        let m = self.spec_mag();
        Vector2D { x: div_bits(self.x, m), y: div_bits(self.y, m) }
    }

    /// Builds the vector with components `x` and `y`.
    pub fn new(x: u64, y: u64) -> (r: Vector2D)
        ensures
            r == (Vector2D { x, y }),
    {
        Vector2D { x, y }
    }

    /// Componentwise sum.
    pub fn add(&self, other: &Vector2D) -> (r: Vector2D)
        ensures
            r == self.spec_add(*other),
    {
        Vector2D { x: fp_add(self.x, other.x), y: fp_add(self.y, other.y) }
    }

    /// Componentwise difference `self - other`.
    pub fn sub(&self, other: &Vector2D) -> (r: Vector2D)
        ensures
            r == self.spec_sub(*other),
    {
        Vector2D { x: fp_sub(self.x, other.x), y: fp_sub(self.y, other.y) }
    }

    /// Componentwise product.
    pub fn mul(&self, other: &Vector2D) -> (r: Vector2D)
        ensures
            r == self.spec_mul(*other),
    {
        Vector2D { x: fp_mul(self.x, other.x), y: fp_mul(self.y, other.y) }
    }

    /// Euclidean magnitude.
    pub fn mag(&self) -> (r: u64)
        ensures
            r == self.spec_mag(),
    {
        fp_sqrt(fp_add(fp_mul(self.x, self.x), fp_mul(self.y, self.y)))
    }

    /// `self` scaled to unit magnitude.
    pub fn norm(&self) -> (r: Vector2D)
        ensures
            r == self.spec_norm(),
    {
        let m = self.mag();
        Vector2D { x: fp_div(self.x, m), y: fp_div(self.y, m) }
    }
}

} // verus!
