//! A displacement in world space, with rotation about a coordinate axis.

use vstd::prelude::*;
use vstd::math::abs;
use crate::math::div_trunc;
use crate::math::lemma_div_trunc_bound;
use crate::math::lemma_mul_bound;
use crate::scene::model_3d::axis::Axis;
use crate::trig::cos_deg;
use crate::trig::sin_deg;
use crate::trig::spec_cos;
use crate::trig::spec_sin;
use crate::trig::TRIG_ONE;

verus! {

/// Largest component magnitude a vector may have when it is rotated.
pub const ROTATE_MAX: i64 = 4 * crate::math::WORLD_MAX;

/// A displacement or direction in world space.
#[derive(Clone, Copy, Debug, PartialEq, Eq, Structural)]
pub struct Vector {
    pub x: i64,
    pub y: i64,
    pub z: i64,
}

/// The fixed-point rotation of `(x, y, z)` about `axis` by `angle` whole
/// degrees: the standard rotation matrix for that axis, with sine and
/// cosine scaled by `TRIG_ONE` and each result divided back down.
pub open spec fn spec_rotate(x: int, y: int, z: int, axis: Axis, angle: int) -> (int, int, int) {
    let s = spec_sin(angle);
    let c = spec_cos(angle);
    let t = TRIG_ONE as int;
    match axis {
        Axis::X => (x, div_trunc(y * c - z * s, t), div_trunc(y * s + z * c, t)),
        Axis::Y => (div_trunc(x * c + z * s, t), y, div_trunc(z * c - x * s, t)),
        Axis::Z => (div_trunc(x * c - y * s, t), div_trunc(x * s + y * c, t), z),
    }
}

/// A rotated pair of components at most doubles in magnitude: both
/// `(p*c - q*s) / TRIG_ONE` and `(p*s + q*c) / TRIG_ONE` stay within
/// `2 * m` when `|p|, |q| <= m`.
pub proof fn lemma_rotate_pair_bound(p: int, q: int, s: int, c: int, m: int)
    requires
        0 <= m,
        abs(p) <= m,
        abs(q) <= m,
        abs(s) <= TRIG_ONE as int,
        abs(c) <= TRIG_ONE as int,
    ensures
        abs(div_trunc(p * c - q * s, TRIG_ONE as int)) <= 2 * m,
        abs(div_trunc(p * s + q * c, TRIG_ONE as int)) <= 2 * m,
{
    let t = TRIG_ONE as int;
    lemma_mul_bound(p, c, m, t);
    lemma_mul_bound(q, s, m, t);
    lemma_mul_bound(p, s, m, t);
    lemma_mul_bound(q, c, m, t);
    assert(abs(p * c - q * s) <= 2 * m * t) by (nonlinear_arith)
        requires abs(p * c) <= m * t, abs(q * s) <= m * t,
    {
    }
    assert(abs(p * s + q * c) <= 2 * m * t) by (nonlinear_arith)
        requires abs(p * s) <= m * t, abs(q * c) <= m * t,
    {
    }
    lemma_div_trunc_bound(p * c - q * s, t, 2 * m);
    lemma_div_trunc_bound(p * s + q * c, t, 2 * m);
}

/// Every component of a rotated vector is at most twice the largest
/// component magnitude of the input.
pub proof fn lemma_rotate_bound(x: int, y: int, z: int, axis: Axis, angle: int, m: int)
    requires
        0 <= m,
        abs(x) <= m,
        abs(y) <= m,
        abs(z) <= m,
    ensures
        abs(spec_rotate(x, y, z, axis, angle).0) <= 2 * m,
        abs(spec_rotate(x, y, z, axis, angle).1) <= 2 * m,
        abs(spec_rotate(x, y, z, axis, angle).2) <= 2 * m,
{
    crate::trig::lemma_sin_range(angle);
    crate::trig::lemma_sin_range(angle + 90);
    match axis {
        Axis::X => lemma_rotate_pair_bound(y, z, spec_sin(angle), spec_cos(angle), m),
        Axis::Y => lemma_rotate_pair_bound(z, x, spec_sin(angle), spec_cos(angle), m),
        Axis::Z => lemma_rotate_pair_bound(x, y, spec_sin(angle), spec_cos(angle), m),
    }
}

/// Rotation by zero degrees leaves a vector unchanged.
pub proof fn lemma_rotate_zero(x: int, y: int, z: int, axis: Axis)
    ensures
        spec_rotate(x, y, z, axis, 0) == (x, y, z),
{
    crate::trig::lemma_sin_zero();
    crate::trig::lemma_cos_zero();
    let t = TRIG_ONE as int;
    crate::math::lemma_div_trunc_exact(x, t);
    crate::math::lemma_div_trunc_exact(y, t);
    crate::math::lemma_div_trunc_exact(z, t);
    assert(x * t == t * x) by (nonlinear_arith);
    assert(y * t == t * y) by (nonlinear_arith);
    assert(z * t == t * z) by (nonlinear_arith);
    assert(x * 0 == 0) by (nonlinear_arith);
    assert(y * 0 == 0) by (nonlinear_arith);
    assert(z * 0 == 0) by (nonlinear_arith);
    match axis {
        Axis::X => {
            assert(y * t - z * 0 == y * t);
            assert(y * 0 + z * t == z * t);
        }
        Axis::Y => {
            assert(x * t + z * 0 == x * t);
            assert(z * t - x * 0 == z * t);
        }
        Axis::Z => {
            assert(x * t - y * 0 == x * t);
            assert(x * 0 + y * t == y * t);
        }
    }
}

impl Vector {
    /// All components stay within `ROTATE_MAX`.
    pub open spec fn wf(self) -> bool {
        abs(self.x as int) <= ROTATE_MAX as int
            && abs(self.y as int) <= ROTATE_MAX as int
            && abs(self.z as int) <= ROTATE_MAX as int
    }

    /// Rotates the vector in place about `axis` by `angle` whole degrees,
    /// using the standard 3x3 rotation matrix for that axis in fixed-point
    /// arithmetic.
    pub fn rotate(&mut self, axis: Axis, angle: i64)
        requires
            old(self).wf(),
        ensures
            (final(self).x as int, final(self).y as int, final(self).z as int)
                == spec_rotate(old(self).x as int, old(self).y as int, old(self).z as int, axis, angle as int),
            abs(final(self).x as int) <= 2 * ROTATE_MAX as int,
            abs(final(self).y as int) <= 2 * ROTATE_MAX as int,
            abs(final(self).z as int) <= 2 * ROTATE_MAX as int,
    {
        let s: i64 = sin_deg(angle);
        let c: i64 = cos_deg(angle);
        proof {
            lemma_rotate_bound(
                self.x as int,
                self.y as int,
                self.z as int,
                axis,
                angle as int,
                ROTATE_MAX as int,
            );
            lemma_mul_bound(self.x as int, s as int, ROTATE_MAX as int, TRIG_ONE as int);
            lemma_mul_bound(self.x as int, c as int, ROTATE_MAX as int, TRIG_ONE as int);
            lemma_mul_bound(self.y as int, s as int, ROTATE_MAX as int, TRIG_ONE as int);
            lemma_mul_bound(self.y as int, c as int, ROTATE_MAX as int, TRIG_ONE as int);
            lemma_mul_bound(self.z as int, s as int, ROTATE_MAX as int, TRIG_ONE as int);
            lemma_mul_bound(self.z as int, c as int, ROTATE_MAX as int, TRIG_ONE as int);
        }
        match axis {
            Axis::X => {
                let ny: i64 = (self.y * c - self.z * s) / TRIG_ONE;
                let nz: i64 = (self.y * s + self.z * c) / TRIG_ONE;
                self.y = ny;
                self.z = nz;
            }
            Axis::Y => {
                let nx: i64 = (self.x * c + self.z * s) / TRIG_ONE;
                let nz: i64 = (self.z * c - self.x * s) / TRIG_ONE;
                self.x = nx;
                self.z = nz;
            }
            Axis::Z => {
                let nx: i64 = (self.x * c - self.y * s) / TRIG_ONE;
                let ny: i64 = (self.x * s + self.y * c) / TRIG_ONE;
                self.x = nx;
                self.y = ny;
            }
        }
    }
}

} // verus!
