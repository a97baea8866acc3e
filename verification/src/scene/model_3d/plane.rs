//! A plane in world space, held as the coefficients of its implicit
//! equation `a*x + b*y + c*z = d`.

use vstd::prelude::*;
use vstd::math::abs;
use crate::math::lemma_mul_bound;
use crate::math::D_COEFF_MAX;
use crate::math::NORMAL_MAX;
use crate::math::WORLD_MAX;
use crate::scene::model_3d::point::Point;
use crate::scene::model_3d::vector::Vector;

verus! {

/// Coefficients of the plane equation `a*x + b*y + c*z = d`.
#[derive(Clone, Copy, Debug, PartialEq, Eq, Structural)]
pub struct Coefficients {
    pub a: i64,
    pub b: i64,
    pub c: i64,
    pub d: i64,
}

/// A plane given by its implicit equation.
#[derive(Clone, Copy, Debug, PartialEq, Eq, Structural)]
pub struct Plane {
    /// Coefficients of the plane equation.
    pub coefficients: Coefficients,
}

impl Plane {
    /// The normal components stay within [`NORMAL_MAX`] and the constant
    /// coefficient within [`D_COEFF_MAX`].
    pub open spec fn wf(self) -> bool {
        abs(self.coefficients.a as int) <= NORMAL_MAX as int
            && abs(self.coefficients.b as int) <= NORMAL_MAX as int
            && abs(self.coefficients.c as int) <= NORMAL_MAX as int
            && abs(self.coefficients.d as int) <= D_COEFF_MAX as int
    }

    /// The point satisfies the plane's equation exactly.
    pub open spec fn passes_through(self, point: Point) -> bool {
        (self.coefficients.a as int) * (point.x as int)
            + (self.coefficients.b as int) * (point.y as int)
            + (self.coefficients.c as int) * (point.z as int)
            == self.coefficients.d as int
    }

    /// Builds the plane with normal `normal` that passes through `point`:
    /// `(a, b, c)` is the normal and `d` its dot product with the point.
    pub fn new(normal: Vector, point: Point) -> (p: Plane)
        requires
            abs(normal.x as int) <= NORMAL_MAX as int,
            abs(normal.y as int) <= NORMAL_MAX as int,
            abs(normal.z as int) <= NORMAL_MAX as int,
            point.wf(),
        ensures
            p.coefficients.a == normal.x,
            p.coefficients.b == normal.y,
            p.coefficients.c == normal.z,
            p.coefficients.d as int == (normal.x as int) * (point.x as int)
                + (normal.y as int) * (point.y as int)
                + (normal.z as int) * (point.z as int),
            p.wf(),
            p.passes_through(point),
    {
        proof {
            lemma_mul_bound(normal.x as int, point.x as int, NORMAL_MAX as int, WORLD_MAX as int);
            lemma_mul_bound(normal.y as int, point.y as int, NORMAL_MAX as int, WORLD_MAX as int);
            lemma_mul_bound(normal.z as int, point.z as int, NORMAL_MAX as int, WORLD_MAX as int);
        }
        let d: i64 = normal.x * point.x + normal.y * point.y + normal.z * point.z;
        Plane { coefficients: Coefficients { a: normal.x, b: normal.y, c: normal.z, d } }
    }
}

} // verus!
