//! The virtual camera: pose, focal length, display, and the three
//! projection planes derived from its orientation.

use vstd::prelude::*;
use vstd::math::abs;
use crate::math::clamp_i64;
use crate::math::spec_clamp;
use crate::math::spec_wrap360;
use crate::math::wrap360;
use crate::math::NORMAL_MAX;
use crate::math::WORLD_MAX;
use crate::scene::camera::display::Display;
use crate::scene::model_3d::axis::Axis;
use crate::scene::model_3d::mesh::clamp_point;
use crate::scene::model_3d::plane::Plane;
use crate::scene::model_3d::plane_direction::PlaneDirection;
use crate::scene::model_3d::point::Point;
use crate::scene::model_3d::vector::lemma_rotate_bound;
use crate::scene::model_3d::vector::spec_rotate;
use crate::scene::model_3d::vector::Vector;
use crate::trig::TRIG_ONE;

pub mod display;

verus! {

/// The three planes a camera derives from its pose: one per
/// [`PlaneDirection`].  The key set is closed, so the planes are held as
/// three named fields rather than a keyed map.
#[derive(Clone, Copy, Debug)]
pub struct CameraPlanes {
    pub yz: Plane,
    pub xz: Plane,
    pub xy: Plane,
}

impl CameraPlanes {
    /// All three planes have bounded coefficients.
    pub open spec fn wf(self) -> bool {
        self.yz.wf() && self.xz.wf() && self.xy.wf()
    }

    /// The plane identified by `direction`.
    pub fn get(&self, direction: PlaneDirection) -> (p: &Plane)
        ensures
            *p == (match direction {
                PlaneDirection::YZ => self.yz,
                PlaneDirection::XZ => self.xz,
                PlaneDirection::XY => self.xy,
            }),
    {
        match direction {
            PlaneDirection::YZ => &self.yz,
            PlaneDirection::XZ => &self.xz,
            PlaneDirection::XY => &self.xy,
        }
    }
}

/// A displacement rotated into a camera-local frame: pitch about X, then
/// yaw about Y, then roll about Z.
pub open spec fn spec_local_delta(x: int, y: int, z: int, pitch: int, yaw: int, roll: int) -> (
    int,
    int,
    int,
) {
    let r1 = spec_rotate(x, y, z, Axis::X, pitch);
    let r2 = spec_rotate(r1.0, r1.1, r1.2, Axis::Y, yaw);
    spec_rotate(r2.0, r2.1, r2.2, Axis::Z, roll)
}

/// The normal of the camera's YZ plane: the unit x axis (scaled by
/// `TRIG_ONE`) rotated by yaw, then roll, then pitch.
pub open spec fn spec_normal_yz(pitch: int, yaw: int, roll: int) -> (int, int, int) {
    let r1 = spec_rotate(TRIG_ONE as int, 0, 0, Axis::Y, yaw);
    let r2 = spec_rotate(r1.0, r1.1, r1.2, Axis::Z, roll);
    spec_rotate(r2.0, r2.1, r2.2, Axis::X, pitch)
}

/// The normal of the camera's XZ plane: the unit y axis rotated by
/// pitch, then roll, then yaw.
pub open spec fn spec_normal_xz(pitch: int, yaw: int, roll: int) -> (int, int, int) {
    let r1 = spec_rotate(0, TRIG_ONE as int, 0, Axis::X, pitch);
    let r2 = spec_rotate(r1.0, r1.1, r1.2, Axis::Z, roll);
    spec_rotate(r2.0, r2.1, r2.2, Axis::Y, yaw)
}

/// The normal of the camera's XY plane: the unit z axis rotated by
/// pitch, then yaw, then roll.
pub open spec fn spec_normal_xy(pitch: int, yaw: int, roll: int) -> (int, int, int) {
    let r1 = spec_rotate(0, 0, TRIG_ONE as int, Axis::X, pitch);
    let r2 = spec_rotate(r1.0, r1.1, r1.2, Axis::Y, yaw);
    spec_rotate(r2.0, r2.1, r2.2, Axis::Z, roll)
}

/// With zero pitch, yaw and roll the derived normals are exactly the
/// scaled coordinate axes.
pub proof fn lemma_identity_pose_normals()
    ensures
        spec_normal_yz(0, 0, 0) == (TRIG_ONE as int, 0int, 0int),
        spec_normal_xz(0, 0, 0) == (0int, TRIG_ONE as int, 0int),
        spec_normal_xy(0, 0, 0) == (0int, 0int, TRIG_ONE as int),
{
    let t = TRIG_ONE as int;
    crate::scene::model_3d::vector::lemma_rotate_zero(t, 0, 0, Axis::Y);
    crate::scene::model_3d::vector::lemma_rotate_zero(t, 0, 0, Axis::Z);
    crate::scene::model_3d::vector::lemma_rotate_zero(t, 0, 0, Axis::X);
    crate::scene::model_3d::vector::lemma_rotate_zero(0, t, 0, Axis::X);
    crate::scene::model_3d::vector::lemma_rotate_zero(0, t, 0, Axis::Z);
    crate::scene::model_3d::vector::lemma_rotate_zero(0, t, 0, Axis::Y);
    crate::scene::model_3d::vector::lemma_rotate_zero(0, 0, t, Axis::X);
    crate::scene::model_3d::vector::lemma_rotate_zero(0, 0, t, Axis::Y);
    crate::scene::model_3d::vector::lemma_rotate_zero(0, 0, t, Axis::Z);
}

/// The planes a camera with the given pose derives, as ghost state:
/// each rotated normal laid through the camera's center.
pub open spec fn spec_camera_planes(cam: Camera) -> CameraPlanes {
    let nyz = spec_normal_yz(cam.pitch_angle as int, cam.yaw_angle as int, cam.roll_angle as int);
    let nxz = spec_normal_xz(cam.pitch_angle as int, cam.yaw_angle as int, cam.roll_angle as int);
    let nxy = spec_normal_xy(cam.pitch_angle as int, cam.yaw_angle as int, cam.roll_angle as int);
    let cx = cam.center.x as int;
    let cy = cam.center.y as int;
    let cz = cam.center.z as int;
    CameraPlanes {
        yz: Plane {
            coefficients: crate::scene::model_3d::plane::Coefficients {
                a: nyz.0 as i64,
                b: nyz.1 as i64,
                c: nyz.2 as i64,
                d: (nyz.0 * cx + nyz.1 * cy + nyz.2 * cz) as i64,
            },
        },
        xz: Plane {
            coefficients: crate::scene::model_3d::plane::Coefficients {
                a: nxz.0 as i64,
                b: nxz.1 as i64,
                c: nxz.2 as i64,
                d: (nxz.0 * cx + nxz.1 * cy + nxz.2 * cz) as i64,
            },
        },
        xy: Plane {
            coefficients: crate::scene::model_3d::plane::Coefficients {
                a: nxy.0 as i64,
                b: nxy.1 as i64,
                c: nxy.2 as i64,
                d: (nxy.0 * cx + nxy.1 * cy + nxy.2 * cz) as i64,
            },
        },
    }
}

/// A rotated unit normal stays within [`NORMAL_MAX`] on each component.
pub proof fn lemma_normal_bound(x0: int, y0: int, z0: int, a1: Axis, d1: int, a2: Axis, d2: int, a3: Axis, d3: int)
    requires
        abs(x0) <= TRIG_ONE as int,
        abs(y0) <= TRIG_ONE as int,
        abs(z0) <= TRIG_ONE as int,
    ensures
        ({
            let r1 = spec_rotate(x0, y0, z0, a1, d1);
            let r2 = spec_rotate(r1.0, r1.1, r1.2, a2, d2);
            let r3 = spec_rotate(r2.0, r2.1, r2.2, a3, d3);
            abs(r3.0) <= NORMAL_MAX as int && abs(r3.1) <= NORMAL_MAX as int && abs(r3.2)
                <= NORMAL_MAX as int
        }),
{
    let r1 = spec_rotate(x0, y0, z0, a1, d1);
    crate::scene::model_3d::vector::lemma_rotate_bound(x0, y0, z0, a1, d1, TRIG_ONE as int);
    let r2 = spec_rotate(r1.0, r1.1, r1.2, a2, d2);
    crate::scene::model_3d::vector::lemma_rotate_bound(r1.0, r1.1, r1.2, a2, d2, 2 * TRIG_ONE as int);
    crate::scene::model_3d::vector::lemma_rotate_bound(r2.0, r2.1, r2.2, a3, d3, 4 * TRIG_ONE as int);
}

/// Every plane a camera derives passes through its center exactly, so
/// the center's signed distance to each of the three planes is zero.
pub proof fn lemma_created_planes_center_distance_zero(cam: Camera)
    requires
        cam.wf(),
    ensures
        crate::scene::model_3d::point::spec_distance(cam.center, spec_camera_planes(cam).yz) == 0,
        crate::scene::model_3d::point::spec_distance(cam.center, spec_camera_planes(cam).xz) == 0,
        crate::scene::model_3d::point::spec_distance(cam.center, spec_camera_planes(cam).xy) == 0,
{
    let p = cam.pitch_angle as int;
    let y = cam.yaw_angle as int;
    let r = cam.roll_angle as int;
    let cx = cam.center.x as int;
    let cy = cam.center.y as int;
    let cz = cam.center.z as int;
    lemma_normal_bound(TRIG_ONE as int, 0, 0, Axis::Y, y, Axis::Z, r, Axis::X, p);
    lemma_normal_bound(0, TRIG_ONE as int, 0, Axis::X, p, Axis::Z, r, Axis::Y, y);
    lemma_normal_bound(0, 0, TRIG_ONE as int, Axis::X, p, Axis::Y, y, Axis::Z, r);
    let nyz = spec_normal_yz(p, y, r);
    let nxz = spec_normal_xz(p, y, r);
    let nxy = spec_normal_xy(p, y, r);
    crate::math::lemma_mul_bound(nyz.0, cx, NORMAL_MAX as int, WORLD_MAX as int);
    crate::math::lemma_mul_bound(nyz.1, cy, NORMAL_MAX as int, WORLD_MAX as int);
    crate::math::lemma_mul_bound(nyz.2, cz, NORMAL_MAX as int, WORLD_MAX as int);
    crate::math::lemma_mul_bound(nxz.0, cx, NORMAL_MAX as int, WORLD_MAX as int);
    crate::math::lemma_mul_bound(nxz.1, cy, NORMAL_MAX as int, WORLD_MAX as int);
    crate::math::lemma_mul_bound(nxz.2, cz, NORMAL_MAX as int, WORLD_MAX as int);
    crate::math::lemma_mul_bound(nxy.0, cx, NORMAL_MAX as int, WORLD_MAX as int);
    crate::math::lemma_mul_bound(nxy.1, cy, NORMAL_MAX as int, WORLD_MAX as int);
    crate::math::lemma_mul_bound(nxy.2, cz, NORMAL_MAX as int, WORLD_MAX as int);
    assert(spec_camera_planes(cam).yz.passes_through(cam.center));
    assert(spec_camera_planes(cam).xz.passes_through(cam.center));
    assert(spec_camera_planes(cam).xy.passes_through(cam.center));
    crate::scene::model_3d::point::lemma_distance_zero_on_plane(
        cam.center,
        spec_camera_planes(cam).yz,
    );
    crate::scene::model_3d::point::lemma_distance_zero_on_plane(
        cam.center,
        spec_camera_planes(cam).xz,
    );
    crate::scene::model_3d::point::lemma_distance_zero_on_plane(
        cam.center,
        spec_camera_planes(cam).xy,
    );
}

/// A camera: focal length, position, orientation in whole degrees, and
/// the display it renders to.
#[derive(Clone, Copy, Debug)]
pub struct Camera {
    pub focal_length: i64,
    pub center: Point,
    /// Rotation about the x axis, in `[0, 360)`.
    pub pitch_angle: i64,
    /// Rotation about the y axis, in `[0, 360)`.
    pub yaw_angle: i64,
    /// Rotation about the z axis, in `[0, 360)`.
    pub roll_angle: i64,
    pub display: Display,
}

impl Camera {
    /// Focal length and center are within the world bounds, the angles
    /// normalized into `[0, 360)`, and the display within its cap.
    pub open spec fn wf(self) -> bool {
        &&& abs(self.focal_length as int) <= WORLD_MAX as int
        &&& self.center.wf()
        &&& 0 <= self.pitch_angle < 360
        &&& 0 <= self.yaw_angle < 360
        &&& 0 <= self.roll_angle < 360
        &&& self.display.wf()
    }

    /// Builds a camera: the focal length and center are forced into the
    /// world bounds, the angles wrapped into `[0, 360)`, and the display
    /// resolution capped.
    pub fn new(
        focal_length: i64,
        center: Point,
        pitch_angle: i64,
        yaw_angle: i64,
        roll_angle: i64,
        display: Display,
    ) -> (c: Camera)
        ensures
            c.focal_length == spec_clamp(focal_length as int, -WORLD_MAX as int, WORLD_MAX as int),
            c.center == clamp_point(center),
            c.pitch_angle == spec_wrap360(pitch_angle as int),
            c.yaw_angle == spec_wrap360(yaw_angle as int),
            c.roll_angle == spec_wrap360(roll_angle as int),
            c.display.width == if display.width <= crate::math::DISPLAY_MAX { display.width as int } else { crate::math::DISPLAY_MAX as int },
            c.display.height == if display.height <= crate::math::DISPLAY_MAX { display.height as int } else { crate::math::DISPLAY_MAX as int },
            c.wf(),
    {
        Camera {
            focal_length: clamp_i64(focal_length, -WORLD_MAX, WORLD_MAX),
            center: Point {
                x: clamp_i64(center.x, -WORLD_MAX, WORLD_MAX),
                y: clamp_i64(center.y, -WORLD_MAX, WORLD_MAX),
                z: clamp_i64(center.z, -WORLD_MAX, WORLD_MAX),
            },
            pitch_angle: wrap360(pitch_angle),
            yaw_angle: wrap360(yaw_angle),
            roll_angle: wrap360(roll_angle),
            display: Display::new(display.width, display.height),
        }
    }

    /// Adds `delta` to the orientation: pitch by `delta.x`, yaw by
    /// `delta.y`, roll by `delta.z`, each wrapped into `[0, 360)`.
    /// Rotation is cyclic and unbounded; nothing else changes.
    pub fn rotate(&mut self, delta: &Vector)
        requires
            old(self).wf(),
        ensures
            final(self).pitch_angle == spec_wrap360(old(self).pitch_angle + delta.x),
            final(self).yaw_angle == spec_wrap360(old(self).yaw_angle + delta.y),
            final(self).roll_angle == spec_wrap360(old(self).roll_angle + delta.z),
            0 <= final(self).pitch_angle < 360,
            0 <= final(self).yaw_angle < 360,
            0 <= final(self).roll_angle < 360,
            final(self).focal_length == old(self).focal_length,
            final(self).center == old(self).center,
            final(self).display == old(self).display,
            final(self).wf(),
    {
        let dp: i64 = wrap360(delta.x);
        let dy: i64 = wrap360(delta.y);
        let dr: i64 = wrap360(delta.z);
        proof {
            vstd::arithmetic::div_mod::lemma_add_mod_noop_right(
                self.pitch_angle as int,
                delta.x as int,
                360,
            );
            vstd::arithmetic::div_mod::lemma_add_mod_noop_right(
                self.yaw_angle as int,
                delta.y as int,
                360,
            );
            vstd::arithmetic::div_mod::lemma_add_mod_noop_right(
                self.roll_angle as int,
                delta.z as int,
                360,
            );
        }
        self.pitch_angle = wrap360(self.pitch_angle + dp);
        self.yaw_angle = wrap360(self.yaw_angle + dy);
        self.roll_angle = wrap360(self.roll_angle + dr);
    }

    /// Moves the camera by `delta` expressed in its local frame: the
    /// displacement is rotated by pitch about X, then yaw about Y, then
    /// roll about Z, and added to the center, which stays clamped inside
    /// the world bounds.  Each component of `delta` is first forced into
    /// the world bounds as well.
    pub fn reposition(&mut self, delta: Vector)
        requires
            old(self).wf(),
        ensures
            ({
                let d = spec_local_delta(
                    spec_clamp(delta.x as int, -WORLD_MAX as int, WORLD_MAX as int),
                    spec_clamp(delta.y as int, -WORLD_MAX as int, WORLD_MAX as int),
                    spec_clamp(delta.z as int, -WORLD_MAX as int, WORLD_MAX as int),
                    old(self).pitch_angle as int,
                    old(self).yaw_angle as int,
                    old(self).roll_angle as int,
                );
                final(self).center == (Point {
                    x: spec_clamp(old(self).center.x + d.0, -WORLD_MAX as int, WORLD_MAX as int) as i64,
                    y: spec_clamp(old(self).center.y + d.1, -WORLD_MAX as int, WORLD_MAX as int) as i64,
                    z: spec_clamp(old(self).center.z + d.2, -WORLD_MAX as int, WORLD_MAX as int) as i64,
                })
            }),
            final(self).focal_length == old(self).focal_length,
            final(self).pitch_angle == old(self).pitch_angle,
            final(self).yaw_angle == old(self).yaw_angle,
            final(self).roll_angle == old(self).roll_angle,
            final(self).display == old(self).display,
            final(self).wf(),
    {
        let mut d: Vector = Vector {
            x: clamp_i64(delta.x, -WORLD_MAX, WORLD_MAX),
            y: clamp_i64(delta.y, -WORLD_MAX, WORLD_MAX),
            z: clamp_i64(delta.z, -WORLD_MAX, WORLD_MAX),
        };
        let ghost d0 = d;
        proof {
            lemma_rotate_bound(
                d.x as int,
                d.y as int,
                d.z as int,
                Axis::X,
                self.pitch_angle as int,
                WORLD_MAX as int,
            );
        }
        d.rotate(Axis::X, self.pitch_angle);
        proof {
            lemma_rotate_bound(
                d.x as int,
                d.y as int,
                d.z as int,
                Axis::Y,
                self.yaw_angle as int,
                2 * WORLD_MAX as int,
            );
        }
        d.rotate(Axis::Y, self.yaw_angle);
        proof {
            lemma_rotate_bound(
                d.x as int,
                d.y as int,
                d.z as int,
                Axis::Z,
                self.roll_angle as int,
                4 * WORLD_MAX as int,
            );
        }
        d.rotate(Axis::Z, self.roll_angle);
        self.center = Point {
            x: clamp_i64(self.center.x + d.x, -WORLD_MAX, WORLD_MAX),
            y: clamp_i64(self.center.y + d.y, -WORLD_MAX, WORLD_MAX),
            z: clamp_i64(self.center.z + d.z, -WORLD_MAX, WORLD_MAX),
        };
    }

    /// Adds `delta` to the focal length, clamped into the world bounds.
    /// No positive lower bound is enforced: a caller that lets the focal
    /// length reach zero or below gets an inverted projection.
    pub fn move_focal_length(&mut self, delta: i64)
        requires
            old(self).wf(),
        ensures
            final(self).focal_length == spec_clamp(
                old(self).focal_length + delta,
                -WORLD_MAX as int,
                WORLD_MAX as int,
            ),
            final(self).center == old(self).center,
            final(self).pitch_angle == old(self).pitch_angle,
            final(self).yaw_angle == old(self).yaw_angle,
            final(self).roll_angle == old(self).roll_angle,
            final(self).display == old(self).display,
            final(self).wf(),
    {
        let sum: i128 = self.focal_length as i128 + delta as i128;
        let clamped: i128 = if sum < -WORLD_MAX as i128 {
            -WORLD_MAX as i128
        } else if sum > WORLD_MAX as i128 {
            WORLD_MAX as i128
        } else {
            sum
        };
        self.focal_length = clamped as i64;
    }

    /// Derives the camera's three projection planes from its pose: each
    /// axis-aligned unit normal (scaled by `TRIG_ONE`) is rotated in a
    /// plane-specific order, and the plane is laid through the camera's
    /// center.  Each plane passes through the center exactly.
    pub fn create_planes(&self) -> (planes: CameraPlanes)
        requires
            self.wf(),
        ensures
            ({
                let n = spec_normal_yz(
                    self.pitch_angle as int,
                    self.yaw_angle as int,
                    self.roll_angle as int,
                );
                planes.yz.coefficients.a == n.0 && planes.yz.coefficients.b == n.1
                    && planes.yz.coefficients.c == n.2
            }),
            ({
                let n = spec_normal_xz(
                    self.pitch_angle as int,
                    self.yaw_angle as int,
                    self.roll_angle as int,
                );
                planes.xz.coefficients.a == n.0 && planes.xz.coefficients.b == n.1
                    && planes.xz.coefficients.c == n.2
            }),
            ({
                let n = spec_normal_xy(
                    self.pitch_angle as int,
                    self.yaw_angle as int,
                    self.roll_angle as int,
                );
                planes.xy.coefficients.a == n.0 && planes.xy.coefficients.b == n.1
                    && planes.xy.coefficients.c == n.2
            }),
            planes.yz.coefficients.d == planes.yz.coefficients.a * self.center.x
                + planes.yz.coefficients.b * self.center.y + planes.yz.coefficients.c * self.center.z,
            planes.xz.coefficients.d == planes.xz.coefficients.a * self.center.x
                + planes.xz.coefficients.b * self.center.y + planes.xz.coefficients.c * self.center.z,
            planes.xy.coefficients.d == planes.xy.coefficients.a * self.center.x
                + planes.xy.coefficients.b * self.center.y + planes.xy.coefficients.c * self.center.z,
            planes.yz.passes_through(self.center),
            planes.xz.passes_through(self.center),
            planes.xy.passes_through(self.center),
            planes.wf(),
            planes == spec_camera_planes(*self),
    {
        proof {
            lemma_normal_bound(
                TRIG_ONE as int, 0, 0,
                Axis::Y, self.yaw_angle as int,
                Axis::Z, self.roll_angle as int,
                Axis::X, self.pitch_angle as int,
            );
            lemma_normal_bound(
                0, TRIG_ONE as int, 0,
                Axis::X, self.pitch_angle as int,
                Axis::Z, self.roll_angle as int,
                Axis::Y, self.yaw_angle as int,
            );
            lemma_normal_bound(
                0, 0, TRIG_ONE as int,
                Axis::X, self.pitch_angle as int,
                Axis::Y, self.yaw_angle as int,
                Axis::Z, self.roll_angle as int,
            );
        }
        let yz_normal: Vector = self.rotated_normal(
            Vector { x: TRIG_ONE, y: 0, z: 0 },
            Axis::Y,
            self.yaw_angle,
            Axis::Z,
            self.roll_angle,
            Axis::X,
            self.pitch_angle,
        );
        let xz_normal: Vector = self.rotated_normal(
            Vector { x: 0, y: TRIG_ONE, z: 0 },
            Axis::X,
            self.pitch_angle,
            Axis::Z,
            self.roll_angle,
            Axis::Y,
            self.yaw_angle,
        );
        let xy_normal: Vector = self.rotated_normal(
            Vector { x: 0, y: 0, z: TRIG_ONE },
            Axis::X,
            self.pitch_angle,
            Axis::Y,
            self.yaw_angle,
            Axis::Z,
            self.roll_angle,
        );
        CameraPlanes {
            yz: Plane::new(yz_normal, self.center),
            xz: Plane::new(xz_normal, self.center),
            xy: Plane::new(xy_normal, self.center),
        }
    }

    /// Applies three axis rotations to a unit normal scaled by
    /// `TRIG_ONE`; the result stays within [`NORMAL_MAX`].
    fn rotated_normal(
        &self,
        start: Vector,
        axis1: Axis,
        angle1: i64,
        axis2: Axis,
        angle2: i64,
        axis3: Axis,
        angle3: i64,
    ) -> (n: Vector)
        requires
            abs(start.x as int) <= TRIG_ONE as int,
            abs(start.y as int) <= TRIG_ONE as int,
            abs(start.z as int) <= TRIG_ONE as int,
        ensures
            ({
                let r1 = spec_rotate(start.x as int, start.y as int, start.z as int, axis1, angle1 as int);
                let r2 = spec_rotate(r1.0, r1.1, r1.2, axis2, angle2 as int);
                let r3 = spec_rotate(r2.0, r2.1, r2.2, axis3, angle3 as int);
                (n.x as int, n.y as int, n.z as int) == r3
            }),
            abs(n.x as int) <= NORMAL_MAX as int,
            abs(n.y as int) <= NORMAL_MAX as int,
            abs(n.z as int) <= NORMAL_MAX as int,
    {
        let mut v: Vector = start;
        proof {
            lemma_rotate_bound(
                v.x as int,
                v.y as int,
                v.z as int,
                axis1,
                angle1 as int,
                TRIG_ONE as int,
            );
        }
        v.rotate(axis1, angle1);
        proof {
            lemma_rotate_bound(
                v.x as int,
                v.y as int,
                v.z as int,
                axis2,
                angle2 as int,
                2 * TRIG_ONE as int,
            );
        }
        v.rotate(axis2, angle2);
        proof {
            lemma_rotate_bound(
                v.x as int,
                v.y as int,
                v.z as int,
                axis3,
                angle3 as int,
                4 * TRIG_ONE as int,
            );
        }
        v.rotate(axis3, angle3);
        v
    }

    /// The camera's focal length.
    pub fn focal_length(&self) -> (f: i64)
        ensures
            f == self.focal_length,
    {
        self.focal_length
    }

    /// The camera's position.
    pub fn center(&self) -> (c: &Point)
        ensures
            *c == self.center,
    {
        &self.center
    }

    /// The rotation about the x axis, in degrees.
    pub fn pitch_angle(&self) -> (a: i64)
        ensures
            a == self.pitch_angle,
    {
        self.pitch_angle
    }

    /// The rotation about the y axis, in degrees.
    pub fn yaw_angle(&self) -> (a: i64)
        ensures
            a == self.yaw_angle,
    {
        self.yaw_angle
    }

    /// The rotation about the z axis, in degrees.
    pub fn roll_angle(&self) -> (a: i64)
        ensures
            a == self.roll_angle,
    {
        self.roll_angle
    }

    /// The display the camera renders to.
    pub fn display(&self) -> (d: &Display)
        ensures
            *d == self.display,
    {
        &self.display
    }
}

} // verus!
