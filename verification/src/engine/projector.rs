//! Perspective projection: a world-space triangle mapped to screen space
//! through the camera's three planes.

use vstd::prelude::*;
use vstd::math::abs;
use crate::math::div_signed;
use crate::math::lemma_div_signed_shrinks;
use crate::math::lemma_mul_bound;
use crate::math::DIST_MAX;
use crate::math::WORLD_MAX;
use crate::scene::camera::CameraPlanes;
use crate::scene::model_2d::point::Point as Point2D;
use crate::scene::model_2d::triangle::Triangle as Triangle2D;
use crate::scene::model_3d::point::lemma_distance_bound;
use crate::scene::model_3d::point::spec_distance;
use crate::scene::model_3d::point::Point as Point3D;
use crate::scene::model_3d::triangle::Triangle as Triangle3D;
use crate::trig::TRIG_ONE;

verus! {

/// Where a vertex lands on screen: its signed distances to the camera's
/// YZ, XZ and XY planes are its camera-local x, y and depth; pinhole
/// projection divides the local x and y by the depth, scaled by the
/// focal length.  A vertex at depth exactly zero lies in the camera's
/// own depth plane and falls back to its raw world x and y.
pub open spec fn spec_project_vertex(planes: CameraPlanes, focal: int, v: Point3D) -> (int, int) {
    let xd = spec_distance(v, planes.yz);
    let yd = spec_distance(v, planes.xz);
    let zd = spec_distance(v, planes.xy);
    if zd == 0 {
        (v.x as int, v.y as int)
    } else {
        (div_signed(focal * xd, zd), div_signed(focal * yd, zd))
    }
}

/// A projected screen coordinate stays within the product of the focal
/// and distance bounds.
pub proof fn lemma_project_vertex_bound(planes: CameraPlanes, focal: int, v: Point3D)
    requires
        planes.wf(),
        abs(focal) <= WORLD_MAX as int,
        v.wf(),
    ensures
        abs(spec_project_vertex(planes, focal, v).0) <= (WORLD_MAX as int) * (DIST_MAX as int),
        abs(spec_project_vertex(planes, focal, v).1) <= (WORLD_MAX as int) * (DIST_MAX as int),
{
    let xd = spec_distance(v, planes.yz);
    let yd = spec_distance(v, planes.xz);
    let zd = spec_distance(v, planes.xy);
    lemma_distance_bound(v, planes.yz);
    lemma_distance_bound(v, planes.xz);
    if zd == 0 {
        assert(abs(v.x as int) <= (WORLD_MAX as int) * (DIST_MAX as int)) by (nonlinear_arith)
            requires abs(v.x as int) <= WORLD_MAX as int, DIST_MAX as int >= 1,
        {
        }
        assert(abs(v.y as int) <= (WORLD_MAX as int) * (DIST_MAX as int)) by (nonlinear_arith)
            requires abs(v.y as int) <= WORLD_MAX as int, DIST_MAX as int >= 1,
        {
        }
    } else {
        lemma_mul_bound(focal, xd, WORLD_MAX as int, DIST_MAX as int);
        lemma_mul_bound(focal, yd, WORLD_MAX as int, DIST_MAX as int);
        lemma_div_signed_shrinks(focal * xd, zd);
        lemma_div_signed_shrinks(focal * yd, zd);
    }
}

/// With the camera's planes reduced to the coordinate planes (zero
/// rotation, center at the origin), the camera-local coordinates are the
/// world coordinates, and a vertex with nonzero depth projects to
/// `(focal * x / z, focal * y / z)`; one at depth zero falls back to its
/// raw `(x, y)`.
pub proof fn lemma_project_identity_pose(planes: CameraPlanes, focal: int, v: Point3D)
    requires
        planes.yz.coefficients.a == TRIG_ONE && planes.yz.coefficients.b == 0
            && planes.yz.coefficients.c == 0 && planes.yz.coefficients.d == 0,
        planes.xz.coefficients.a == 0 && planes.xz.coefficients.b == TRIG_ONE
            && planes.xz.coefficients.c == 0 && planes.xz.coefficients.d == 0,
        planes.xy.coefficients.a == 0 && planes.xy.coefficients.b == 0
            && planes.xy.coefficients.c == TRIG_ONE && planes.xy.coefficients.d == 0,
    ensures
        spec_distance(v, planes.yz) == v.x as int,
        spec_distance(v, planes.xz) == v.y as int,
        spec_distance(v, planes.xy) == v.z as int,
        v.z != 0 ==> spec_project_vertex(planes, focal, v) == (
            div_signed(focal * v.x, v.z as int),
            div_signed(focal * v.y, v.z as int),
        ),
        v.z == 0 ==> spec_project_vertex(planes, focal, v) == (v.x as int, v.y as int),
{
    lemma_distance_on_axis_plane(v.x as int, v.y as int, v.z as int);
}

/// The distance to a coordinate plane through the origin is the matching
/// coordinate itself: the scale cancels exactly.
proof fn lemma_distance_on_axis_plane(x: int, y: int, z: int)
    ensures
        ({
            let t = TRIG_ONE as int;
            let den = crate::math::spec_isqrt(t * t + 0 * 0 + 0 * 0);
            den == t
        }),
        ({
            let t = TRIG_ONE as int;
            crate::math::div_trunc(t * x + 0 * y + 0 * z - 0, TRIG_ONE as int) == x
        }),
        ({
            let t = TRIG_ONE as int;
            crate::math::div_trunc(0 * x + t * y + 0 * z - 0, TRIG_ONE as int) == y
        }),
        ({
            let t = TRIG_ONE as int;
            crate::math::div_trunc(0 * x + 0 * y + t * z - 0, TRIG_ONE as int) == z
        }),
        ({
            let t = TRIG_ONE as int;
            crate::math::spec_isqrt(0 * 0 + t * t + 0 * 0) == t
                && crate::math::spec_isqrt(0 * 0 + 0 * 0 + t * t) == t
        }),
{
    let t = TRIG_ONE as int;
    assert(t * t < (t + 1) * (t + 1)) by (nonlinear_arith)
        requires t >= 1,
    {
    }
    crate::math::lemma_isqrt_unique(t * t, t);
    assert(0 * x == 0) by (nonlinear_arith);
    assert(0 * y == 0) by (nonlinear_arith);
    assert(0 * z == 0) by (nonlinear_arith);
    assert(0 * 0 == 0int) by (nonlinear_arith);
    crate::math::lemma_div_trunc_exact(x, t);
    crate::math::lemma_div_trunc_exact(y, t);
    crate::math::lemma_div_trunc_exact(z, t);
    assert(t * x == x * t) by (nonlinear_arith);
    assert(t * y == y * t) by (nonlinear_arith);
    assert(t * z == z * t) by (nonlinear_arith);
}

/// Projects one vertex through the camera's planes.
fn project_vertex(planes: &CameraPlanes, focal_length: i64, v: &Point3D) -> (p: Point2D)
    requires
        planes.wf(),
        abs(focal_length as int) <= WORLD_MAX as int,
        v.wf(),
    ensures
        (p.x as int, p.y as int) == spec_project_vertex(*planes, focal_length as int, *v),
        abs(p.x as int) <= (WORLD_MAX as int) * (DIST_MAX as int),
        abs(p.y as int) <= (WORLD_MAX as int) * (DIST_MAX as int),
{
    let x_distance: i64 = v.distance_from_plane(&planes.yz);
    let y_distance: i64 = v.distance_from_plane(&planes.xz);
    let z_distance: i64 = v.distance_from_plane(&planes.xy);
    proof {
        lemma_project_vertex_bound(*planes, focal_length as int, *v);
        lemma_mul_bound(focal_length as int, x_distance as int, WORLD_MAX as int, DIST_MAX as int);
        lemma_mul_bound(focal_length as int, y_distance as int, WORLD_MAX as int, DIST_MAX as int);
    }
    if z_distance == 0 {
        Point2D { x: v.x, y: v.y }
    } else {
        let xn: i64 = focal_length * x_distance;
        let yn: i64 = focal_length * y_distance;
        proof {
            lemma_div_signed_shrinks(xn as int, z_distance as int);
            lemma_div_signed_shrinks(yn as int, z_distance as int);
        }
        if z_distance > 0 {
            Point2D { x: xn / z_distance, y: yn / z_distance }
        } else {
            Point2D { x: -(xn / -z_distance), y: -(yn / -z_distance) }
        }
    }
}

/// Projects a world-space triangle to screen space, vertex by vertex.
pub fn project(camera_planes: &CameraPlanes, focal_length: i64, triangle: &Triangle3D) -> (t:
    Triangle2D)
    requires
        camera_planes.wf(),
        abs(focal_length as int) <= WORLD_MAX as int,
        triangle.wf(),
    ensures
        forall|i: int| 0 <= i < 3 ==> (#[trigger] t.vertices@[i].x as int, t.vertices@[i].y as int)
            == spec_project_vertex(*camera_planes, focal_length as int, triangle.vertices@[i]),
        forall|i: int| 0 <= i < 3 ==> abs(#[trigger] t.vertices@[i].x as int) <= (WORLD_MAX as int)
            * (DIST_MAX as int),
        forall|i: int| 0 <= i < 3 ==> abs(#[trigger] t.vertices@[i].y as int) <= (WORLD_MAX as int)
            * (DIST_MAX as int),
{
    let vertices: [Point3D; 3] = triangle.vertices();
    let p0: Point2D = project_vertex(camera_planes, focal_length, &vertices[0]);
    let p1: Point2D = project_vertex(camera_planes, focal_length, &vertices[1]);
    let p2: Point2D = project_vertex(camera_planes, focal_length, &vertices[2]);
    Triangle2D { vertices: [p0, p1, p2] }
}

} // verus!
