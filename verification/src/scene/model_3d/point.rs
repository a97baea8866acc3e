//! A position in world space, with its signed distance to a plane.

use vstd::prelude::*;
use vstd::math::abs;
use crate::math::div_trunc;
use crate::math::isqrt;
use crate::math::lemma_div_trunc_bound;
use crate::math::lemma_isqrt_bounds;
use crate::math::lemma_mul_bound;
use crate::math::spec_isqrt;
use crate::math::DIST_MAX;
use crate::math::NORMAL_MAX;
use crate::math::WORLD_MAX;
use crate::scene::model_3d::plane::Plane;

verus! {

/// A position in world space, in whole units.
#[derive(Clone, Copy, Debug, PartialEq, Eq, Structural)]
pub struct Point {
    pub x: i64,
    pub y: i64,
    pub z: i64,
}

/// The signed distance from a point to a plane, in whole units:
/// `(a*x + b*y + c*z - d) / |(a, b, c)|`, rounded toward zero.
/// A plane whose normal has magnitude below one unit gives distance 0.
pub open spec fn spec_distance(point: Point, plane: Plane) -> int {
    let a = plane.coefficients.a as int;
    let b = plane.coefficients.b as int;
    let c = plane.coefficients.c as int;
    let d = plane.coefficients.d as int;
    let num = a * (point.x as int) + b * (point.y as int) + c * (point.z as int) - d;
    let den = spec_isqrt(a * a + b * b + c * c);
    if den == 0 {
        0
    } else {
        div_trunc(num, den)
    }
}

/// A point exactly on a plane is at distance zero from it.
pub proof fn lemma_distance_zero_on_plane(point: Point, plane: Plane)
    requires
        plane.passes_through(point),
    ensures
        spec_distance(point, plane) == 0,
{
    let a = plane.coefficients.a as int;
    let b = plane.coefficients.b as int;
    let c = plane.coefficients.c as int;
    let den = spec_isqrt(a * a + b * b + c * c);
    if den != 0 {
        lemma_isqrt_bounds(a * a + b * b + c * c);
        vstd::arithmetic::div_mod::lemma_basic_div(0, den);
    }
}

/// The distance from a bounded point to a bounded plane stays within
/// [`DIST_MAX`].
pub proof fn lemma_distance_bound(point: Point, plane: Plane)
    requires
        point.wf(),
        plane.wf(),
    ensures
        abs(spec_distance(point, plane)) <= DIST_MAX as int,
{
    let a = plane.coefficients.a as int;
    let b = plane.coefficients.b as int;
    let c = plane.coefficients.c as int;
    let d = plane.coefficients.d as int;
    let num = a * (point.x as int) + b * (point.y as int) + c * (point.z as int) - d;
    let den = spec_isqrt(a * a + b * b + c * c);
    lemma_mul_bound(a, a, NORMAL_MAX as int, NORMAL_MAX as int);
    lemma_mul_bound(b, b, NORMAL_MAX as int, NORMAL_MAX as int);
    lemma_mul_bound(c, c, NORMAL_MAX as int, NORMAL_MAX as int);
    lemma_mul_bound(a, point.x as int, NORMAL_MAX as int, WORLD_MAX as int);
    lemma_mul_bound(b, point.y as int, NORMAL_MAX as int, WORLD_MAX as int);
    lemma_mul_bound(c, point.z as int, NORMAL_MAX as int, WORLD_MAX as int);
    assert(a * a >= 0) by (nonlinear_arith);
    assert(b * b >= 0) by (nonlinear_arith);
    assert(c * c >= 0) by (nonlinear_arith);
    if den != 0 {
        lemma_isqrt_bounds(a * a + b * b + c * c);
        assert(abs(num) <= (DIST_MAX as int) * den) by (nonlinear_arith)
            requires abs(num) <= DIST_MAX as int, den >= 1, DIST_MAX as int > 0,
        {
        }
        lemma_div_trunc_bound(num, den, DIST_MAX as int);
    }
}

impl Point {
    /// All coordinates stay within [`WORLD_MAX`].
    pub open spec fn wf(self) -> bool {
        abs(self.x as int) <= WORLD_MAX as int
            && abs(self.y as int) <= WORLD_MAX as int
            && abs(self.z as int) <= WORLD_MAX as int
    }

    /// The signed distance from this point to `plane`, in whole units.
    pub fn distance_from_plane(&self, plane: &Plane) -> (r: i64)
        requires
            self.wf(),
            plane.wf(),
        ensures
            r == spec_distance(*self, *plane),
            abs(r as int) <= DIST_MAX as int,
    {
        let a: i64 = plane.coefficients.a;
        let b: i64 = plane.coefficients.b;
        let c: i64 = plane.coefficients.c;
        let d: i64 = plane.coefficients.d;
        proof {
            lemma_mul_bound(a as int, a as int, NORMAL_MAX as int, NORMAL_MAX as int);
            lemma_mul_bound(b as int, b as int, NORMAL_MAX as int, NORMAL_MAX as int);
            lemma_mul_bound(c as int, c as int, NORMAL_MAX as int, NORMAL_MAX as int);
            assert(a as int * (a as int) >= 0) by (nonlinear_arith);
            assert(b as int * (b as int) >= 0) by (nonlinear_arith);
            assert(c as int * (c as int) >= 0) by (nonlinear_arith);
            lemma_mul_bound(a as int, self.x as int, NORMAL_MAX as int, WORLD_MAX as int);
            lemma_mul_bound(b as int, self.y as int, NORMAL_MAX as int, WORLD_MAX as int);
            lemma_mul_bound(c as int, self.z as int, NORMAL_MAX as int, WORLD_MAX as int);
        }
        let norm_sq: i64 = a * a + b * b + c * c;
        let den: u64 = isqrt(norm_sq as u64);
        let num: i64 = a * self.x + b * self.y + c * self.z - d;
        proof {
            lemma_isqrt_bounds(norm_sq as int);
        }
        if den == 0 {
            0
        } else {
            proof {
                assert(1 <= den as int <= 0x80000000int);
                assert(abs(num as int) <= (DIST_MAX as int) * (den as int)) by (nonlinear_arith)
                    requires
                        abs(num as int) <= DIST_MAX as int,
                        den as int >= 1,
                        DIST_MAX as int > 0,
                {
                }
                lemma_div_trunc_bound(num as int, den as int, DIST_MAX as int);
            }
            num / (den as i64)
        }
    }
}

} // verus!
