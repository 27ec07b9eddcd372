//! Three-component fixed-point vectors.

use vstd::prelude::*;
use crate::fixed::{
    fx_add, fx_add_spec, fx_div, fx_div_spec, fx_mul, fx_mul_div, fx_mul_div_spec, fx_mul_spec,
    fx_neg, fx_neg_spec, fx_sub, fx_sub_spec, isqrt, isqrt_spec, sat, saturate,
};

verus! {

/// A vector of three fixed-point scalars.
#[derive(Clone, Copy, Debug, PartialEq, Eq, Structural)]
pub struct Vec3 {
    pub x: i64,
    pub y: i64,
    pub z: i64,
}

impl Vec3 {
    /// The vector with all components zero.
    pub open spec fn zero_spec() -> Vec3 {
        Vec3 { x: 0, y: 0, z: 0 }
    }

    /// The component-wise sum.
    pub open spec fn plus_spec(self, other: Vec3) -> Vec3 {
        Vec3 {
            x: fx_add_spec(self.x, other.x),
            y: fx_add_spec(self.y, other.y),
            z: fx_add_spec(self.z, other.z),
        }
    }

    /// The component-wise difference.
    pub open spec fn minus_spec(self, other: Vec3) -> Vec3 {
        Vec3 {
            x: fx_sub_spec(self.x, other.x),
            y: fx_sub_spec(self.y, other.y),
            z: fx_sub_spec(self.z, other.z),
        }
    }

    /// The opposite vector.
    pub open spec fn negated_spec(self) -> Vec3 {
        Vec3 { x: fx_neg_spec(self.x), y: fx_neg_spec(self.y), z: fx_neg_spec(self.z) }
    }

    /// Every component multiplied by one scalar.
    pub open spec fn scaled_spec(self, factor: i64) -> Vec3 {
        Vec3 {
            x: fx_mul_spec(self.x, factor),
            y: fx_mul_spec(self.y, factor),
            z: fx_mul_spec(self.z, factor),
        }
    }

    /// The component-wise product.
    pub open spec fn times_spec(self, other: Vec3) -> Vec3 {
        Vec3 {
            x: fx_mul_spec(self.x, other.x),
            y: fx_mul_spec(self.y, other.y),
            z: fx_mul_spec(self.z, other.z),
        }
    }

    /// The dot product: each component product is rounded on its own, and
    /// their sum is saturated.
    pub open spec fn dot_spec(self, other: Vec3) -> i64 {
        sat(
            fx_mul_spec(self.x, other.x) + fx_mul_spec(self.y, other.y) + fx_mul_spec(
                self.z,
                other.z,
            ),
        )
    }

    /// The cross product.
    pub open spec fn cross_spec(self, other: Vec3) -> Vec3 {
        Vec3 {
            x: fx_sub_spec(fx_mul_spec(self.y, other.z), fx_mul_spec(self.z, other.y)),
            y: fx_sub_spec(fx_mul_spec(self.z, other.x), fx_mul_spec(self.x, other.z)),
            z: fx_sub_spec(fx_mul_spec(self.x, other.y), fx_mul_spec(self.y, other.x)),
        }
    }

    /// The sum of the squares of the raw components.
    pub open spec fn raw_norm_squared(self) -> int {
        self.x * self.x + self.y * self.y + self.z * self.z
    }

    /// The Euclidean length, rounded down and saturated.
    pub open spec fn length_spec(self) -> i64 {
        sat(isqrt_spec(self.raw_norm_squared() as u128) as int)
    }

    /// The vector shortened to at most `limit`, its direction kept; the zero
    /// vector for a limit that is not positive.
    pub open spec fn clamped_spec(self, limit: i64) -> Vec3 {
        let len = self.length_spec();
        if len <= limit {
            self
        } else if limit <= 0 {
            Vec3::zero_spec()
        } else {
            Vec3 {
                x: fx_mul_div_spec(self.x, limit, len),
                y: fx_mul_div_spec(self.y, limit, len),
                z: fx_mul_div_spec(self.z, limit, len),
            }
        }
    }

    /// The vector scaled to unit length, or the zero vector where its length
    /// rounds to zero.
    pub open spec fn normalized_or_zero_spec(self) -> Vec3 {
        let len = self.length_spec();
        if len == 0 {
            Vec3::zero_spec()
        } else {
            Vec3 {
                x: fx_div_spec(self.x, len),
                y: fx_div_spec(self.y, len),
                z: fx_div_spec(self.z, len),
            }
        }
    }

    /// The point at fraction `blend` of the way from `self` to `goal`.
    pub open spec fn lerp_spec(self, goal: Vec3, blend: i64) -> Vec3 {
        self.plus_spec(goal.minus_spec(self).scaled_spec(blend))
    }

    /// The projection onto the line along `axis`, or the zero vector where the
    /// axis is too short to have a direction.
    pub open spec fn projected_onto_spec(self, axis: Vec3) -> Vec3 {
        if axis.dot_spec(axis) == 0 {
            Vec3::zero_spec()
        } else {
            axis.scaled_spec(fx_div_spec(self.dot_spec(axis), axis.dot_spec(axis)))
        }
    }

    /// The vector with all components zero.
    #[verifier::when_used_as_spec(zero_spec)]
    pub fn zero() -> (r: Vec3)
        ensures
            r == Vec3::zero_spec(),
    {
        Vec3 { x: 0, y: 0, z: 0 }
    }

    /// The component-wise sum.
    #[verifier::when_used_as_spec(plus_spec)]
    pub fn plus(self, other: Vec3) -> (r: Vec3)
        ensures
            r == self.plus_spec(other),
    {
        Vec3 { x: fx_add(self.x, other.x), y: fx_add(self.y, other.y), z: fx_add(self.z, other.z) }
    }

    /// The component-wise difference.
    #[verifier::when_used_as_spec(minus_spec)]
    pub fn minus(self, other: Vec3) -> (r: Vec3)
        ensures
            r == self.minus_spec(other),
    {
        Vec3 { x: fx_sub(self.x, other.x), y: fx_sub(self.y, other.y), z: fx_sub(self.z, other.z) }
    }

    /// The opposite vector.
    #[verifier::when_used_as_spec(negated_spec)]
    pub fn negated(self) -> (r: Vec3)
        ensures
            r == self.negated_spec(),
    {
        Vec3 { x: fx_neg(self.x), y: fx_neg(self.y), z: fx_neg(self.z) }
    }

    /// Every component multiplied by one scalar.
    #[verifier::when_used_as_spec(scaled_spec)]
    pub fn scaled(self, factor: i64) -> (r: Vec3)
        ensures
            r == self.scaled_spec(factor),
    {
        Vec3 { x: fx_mul(self.x, factor), y: fx_mul(self.y, factor), z: fx_mul(self.z, factor) }
    }

    /// The component-wise product.
    #[verifier::when_used_as_spec(times_spec)]
    pub fn times(self, other: Vec3) -> (r: Vec3)
        ensures
            r == self.times_spec(other),
    {
        Vec3 { x: fx_mul(self.x, other.x), y: fx_mul(self.y, other.y), z: fx_mul(self.z, other.z) }
    }

    /// The dot product: each component product is rounded on its own, and
    /// their sum is saturated.
    #[verifier::when_used_as_spec(dot_spec)]
    pub fn dot(self, other: Vec3) -> (r: i64)
        ensures
            r == self.dot_spec(other),
    {
        let px: i128 = fx_mul(self.x, other.x) as i128;
        let py: i128 = fx_mul(self.y, other.y) as i128;
        let pz: i128 = fx_mul(self.z, other.z) as i128;
        saturate(px + py + pz)
    }

    /// The cross product.
    #[verifier::when_used_as_spec(cross_spec)]
    pub fn cross(self, other: Vec3) -> (r: Vec3)
        ensures
            r == self.cross_spec(other),
    {
        Vec3 {
            x: fx_sub(fx_mul(self.y, other.z), fx_mul(self.z, other.y)),
            y: fx_sub(fx_mul(self.z, other.x), fx_mul(self.x, other.z)),
            z: fx_sub(fx_mul(self.x, other.y), fx_mul(self.y, other.x)),
        }
    }

    /// The Euclidean length, rounded down and saturated.
    #[verifier::when_used_as_spec(length_spec)]
    pub fn length(self) -> (r: i64)
        ensures
            r == self.length_spec(),
            r >= 0,
    {
        let sx: u128 = square(self.x);
        let sy: u128 = square(self.y);
        let sz: u128 = square(self.z);
        let root: u64 = isqrt(sx + sy + sz);
        saturate(root as i128)
    }

    /// The vector shortened to at most `limit`, its direction kept. A limit
    /// that is not positive leaves the zero vector.
    #[verifier::when_used_as_spec(clamped_spec)]
    pub fn clamped(self, limit: i64) -> (r: Vec3)
        ensures
            r == self.clamped_spec(limit),
    {
        let len: i64 = self.length();
        if len <= limit {
            self
        } else if limit <= 0 {
            Vec3::zero()
        } else {
            Vec3 {
                x: fx_mul_div(self.x, limit, len),
                y: fx_mul_div(self.y, limit, len),
                z: fx_mul_div(self.z, limit, len),
            }
        }
    }

    /// The vector scaled to unit length, or the zero vector where its length
    /// rounds to zero.
    #[verifier::when_used_as_spec(normalized_or_zero_spec)]
    pub fn normalized_or_zero(self) -> (r: Vec3)
        ensures
            r == self.normalized_or_zero_spec(),
    {
        let len: i64 = self.length();
        if len == 0 {
            Vec3::zero()
        } else {
            Vec3 { x: fx_div(self.x, len), y: fx_div(self.y, len), z: fx_div(self.z, len) }
        }
    }

    /// The point at fraction `blend` of the way from `self` to `goal`.
    #[verifier::when_used_as_spec(lerp_spec)]
    pub fn lerp(self, goal: Vec3, blend: i64) -> (r: Vec3)
        ensures
            r == self.lerp_spec(goal, blend),
    {
        self.plus(goal.minus(self).scaled(blend))
    }

    /// The projection of the vector onto the line along `axis`, or the zero
    /// vector where the axis is too short to have a direction.
    #[verifier::when_used_as_spec(projected_onto_spec)]
    pub fn projected_onto(self, axis: Vec3) -> (r: Vec3)
        ensures
            r == self.projected_onto_spec(axis),
    {
        let norm: i64 = axis.dot(axis);
        if norm == 0 {
            Vec3::zero()
        } else {
            axis.scaled(fx_div(self.dot(axis), norm))
        }
    }
}

/// The square of a raw component.
fn square(c: i64) -> (r: u128)
    ensures
        r == c * c,
        r <= 0x4000_0000_0000_0000_0000_0000_0000_0000,
{
    assert(0 <= (c as int) * (c as int) <= 0x4000_0000_0000_0000_0000_0000_0000_0000)
        by (nonlinear_arith)
        requires
            -0x8000_0000_0000_0000 <= c <= 0x7fff_ffff_ffff_ffff,
    ;
    let wide: i128 = (c as i128) * (c as i128);
    wide as u128
}

} // verus!
