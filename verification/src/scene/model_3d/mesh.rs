//! A mesh: a vertex list plus faces, resolved into colored triangles.

use vstd::prelude::*;
use crate::error::RenderError;
use crate::math::clamp_i64;
use crate::math::lemma_div_trunc_bound;
use crate::math::spec_clamp;
use crate::math::WORLD_MAX;
use crate::scene::model::color::Color;
use crate::scene::model_3d::face::Face;
use crate::scene::model_3d::point::Point;
use crate::scene::model_3d::triangle::Triangle;
use crate::scene::model_3d::vector::Vector;

verus! {

/// Every vertex index of the face is below the vertex count `n`.
pub open spec fn face_valid(face: Face, n: int) -> bool {
    face.vertices@[0] < n && face.vertices@[1] < n && face.vertices@[2] < n
}

/// Every face references only existing vertices.
pub open spec fn faces_valid(faces: Seq<Face>, n: int) -> bool {
    forall|i: int| 0 <= i < faces.len() ==> face_valid(#[trigger] faces[i], n)
}

/// The first out-of-range index value of an invalid face.
pub open spec fn first_bad_vertex(face: Face, n: int) -> int {
    if face.vertices@[0] >= n {
        face.vertices@[0] as int
    } else if face.vertices@[1] >= n {
        face.vertices@[1] as int
    } else {
        face.vertices@[2] as int
    }
}

/// A point with each coordinate forced into the world bounds.
pub open spec fn clamp_point(p: Point) -> Point {
    Point {
        x: spec_clamp(p.x as int, -WORLD_MAX as int, WORLD_MAX as int) as i64,
        y: spec_clamp(p.y as int, -WORLD_MAX as int, WORLD_MAX as int) as i64,
        z: spec_clamp(p.z as int, -WORLD_MAX as int, WORLD_MAX as int) as i64,
    }
}

/// Forces each coordinate of a point into the world bounds.
fn clamp_point_exec(p: Point) -> (r: Point)
    ensures
        r == clamp_point(p),
        r.wf(),
{
    Point {
        x: clamp_i64(p.x, -WORLD_MAX, WORLD_MAX),
        y: clamp_i64(p.y, -WORLD_MAX, WORLD_MAX),
        z: clamp_i64(p.z, -WORLD_MAX, WORLD_MAX),
    }
}

/// The eight corners of an axis-aligned cuboid centered at `p`, front
/// face first, each corner forced into the world bounds.  Extents are
/// halved toward zero; `p` and the extents are clamped before use.
pub open spec fn spec_cube_point(
    p: Point,
    width: i64,
    height: i64,
    length: i64,
    k: int,
) -> Point {
    let px = spec_clamp(p.x as int, -WORLD_MAX as int, WORLD_MAX as int);
    let py = spec_clamp(p.y as int, -WORLD_MAX as int, WORLD_MAX as int);
    let pz = spec_clamp(p.z as int, -WORLD_MAX as int, WORLD_MAX as int);
    let w2 = crate::math::div_trunc(spec_clamp(width as int, -WORLD_MAX as int, WORLD_MAX as int), 2);
    let h2 = crate::math::div_trunc(spec_clamp(height as int, -WORLD_MAX as int, WORLD_MAX as int), 2);
    let l2 = crate::math::div_trunc(spec_clamp(length as int, -WORLD_MAX as int, WORLD_MAX as int), 2);
    let sx = if k == 0 || k == 1 || k == 4 || k == 5 { -1int } else { 1int };
    let sy = if k == 0 || k == 3 || k == 4 || k == 7 { -1int } else { 1int };
    let sz = if k < 4 { -1int } else { 1int };
    clamp_point(
        Point { x: (px + sx * w2) as i64, y: (py + sy * h2) as i64, z: (pz + sz * l2) as i64 },
    )
}

/// Builds the mesh of an axis-aligned cuboid: eight corners and twelve
/// colored faces, two per side.
#[verifier::rlimit(100)]
pub fn cube(position: Point, width: i64, height: i64, length: i64, color: Color) -> (m: Mesh)
    ensures
        m.points@.len() == 8,
        forall|k: int| 0 <= k < 8 ==> #[trigger] m.points@[k] == spec_cube_point(
            position,
            width,
            height,
            length,
            k,
        ),
        m.faces@.len() == 12,
        forall|i: int| 0 <= i < 12 ==> (#[trigger] m.faces@[i]).color == color,
        m.faces@[0].vertices@ =~= seq![0usize, 1usize, 2usize],
        m.faces@[1].vertices@ =~= seq![0usize, 2usize, 3usize],
        m.faces@[2].vertices@ =~= seq![4usize, 5usize, 6usize],
        m.faces@[3].vertices@ =~= seq![4usize, 6usize, 7usize],
        m.faces@[4].vertices@ =~= seq![0usize, 1usize, 4usize],
        m.faces@[5].vertices@ =~= seq![1usize, 5usize, 4usize],
        m.faces@[6].vertices@ =~= seq![1usize, 2usize, 5usize],
        m.faces@[7].vertices@ =~= seq![2usize, 5usize, 6usize],
        m.faces@[8].vertices@ =~= seq![2usize, 6usize, 3usize],
        m.faces@[9].vertices@ =~= seq![3usize, 6usize, 7usize],
        m.faces@[10].vertices@ =~= seq![0usize, 4usize, 7usize],
        m.faces@[11].vertices@ =~= seq![0usize, 7usize, 3usize],
        faces_valid(m.faces@, 8),
        m.wf(),
{
    let px: i64 = clamp_i64(position.x, -WORLD_MAX, WORLD_MAX);
    let py: i64 = clamp_i64(position.y, -WORLD_MAX, WORLD_MAX);
    let pz: i64 = clamp_i64(position.z, -WORLD_MAX, WORLD_MAX);
    let w2: i64 = clamp_i64(width, -WORLD_MAX, WORLD_MAX) / 2;
    let h2: i64 = clamp_i64(height, -WORLD_MAX, WORLD_MAX) / 2;
    let l2: i64 = clamp_i64(length, -WORLD_MAX, WORLD_MAX) / 2;
    let mut points: Vec<Point> = Vec::new();
    points.push(Point { x: px - w2, y: py - h2, z: pz - l2 });
    points.push(Point { x: px - w2, y: py + h2, z: pz - l2 });
    points.push(Point { x: px + w2, y: py + h2, z: pz - l2 });
    points.push(Point { x: px + w2, y: py - h2, z: pz - l2 });
    points.push(Point { x: px - w2, y: py - h2, z: pz + l2 });
    points.push(Point { x: px - w2, y: py + h2, z: pz + l2 });
    points.push(Point { x: px + w2, y: py + h2, z: pz + l2 });
    points.push(Point { x: px + w2, y: py - h2, z: pz + l2 });
    let mut faces: Vec<Face> = Vec::new();
    faces.push(Face::new([0, 1, 2], color));
    faces.push(Face::new([0, 2, 3], color));
    faces.push(Face::new([4, 5, 6], color));
    faces.push(Face::new([4, 6, 7], color));
    faces.push(Face::new([0, 1, 4], color));
    faces.push(Face::new([1, 5, 4], color));
    faces.push(Face::new([1, 2, 5], color));
    faces.push(Face::new([2, 5, 6], color));
    faces.push(Face::new([2, 6, 3], color));
    faces.push(Face::new([3, 6, 7], color));
    faces.push(Face::new([0, 4, 7], color));
    faces.push(Face::new([0, 7, 3], color));
    let ghost pts0 = points@;
    let m = Mesh::new(points, faces);
    proof {
        assert forall|k: int| 0 <= k < 8 implies #[trigger] m.points@[k] == spec_cube_point(
            position,
            width,
            height,
            length,
            k,
        ) by {
            assert(m.points@[k] == clamp_point(pts0[k]));
            lemma_div_trunc_bound(
                spec_clamp(width as int, -WORLD_MAX as int, WORLD_MAX as int),
                2,
                WORLD_MAX as int,
            );
            lemma_div_trunc_bound(
                spec_clamp(height as int, -WORLD_MAX as int, WORLD_MAX as int),
                2,
                WORLD_MAX as int,
            );
            lemma_div_trunc_bound(
                spec_clamp(length as int, -WORLD_MAX as int, WORLD_MAX as int),
                2,
                WORLD_MAX as int,
            );
            assert(1int * (w2 as int) == w2 as int) by (nonlinear_arith);
            assert((-1int) * (w2 as int) == -(w2 as int)) by (nonlinear_arith);
            assert(1int * (h2 as int) == h2 as int) by (nonlinear_arith);
            assert((-1int) * (h2 as int) == -(h2 as int)) by (nonlinear_arith);
            assert(1int * (l2 as int) == l2 as int) by (nonlinear_arith);
            assert((-1int) * (l2 as int) == -(l2 as int)) by (nonlinear_arith);
        }
    }
    m
}

/// An ordered vertex list and the faces over it.
pub struct Mesh {
    pub points: Vec<Point>,
    pub faces: Vec<Face>,
}

impl Mesh {
    /// Every vertex is within the world bounds.
    pub open spec fn wf(self) -> bool {
        forall|i: int| 0 <= i < self.points@.len() ==> (#[trigger] self.points@[i]).wf()
    }

    /// Builds a mesh; every vertex coordinate is forced into the world
    /// bounds, so the mesh is well formed by construction.
    pub fn new(points: Vec<Point>, faces: Vec<Face>) -> (m: Mesh)
        ensures
            m.points@.len() == points@.len(),
            forall|i: int| 0 <= i < points@.len() ==> m.points@[i] == clamp_point(#[trigger] points@[i]),
            m.faces@ == faces@,
            m.wf(),
    {
        let mut clamped: Vec<Point> = Vec::new();
        let mut i: usize = 0;
        while i < points.len()
            invariant
                i <= points@.len(),
                clamped@.len() == i,
                forall|j: int| 0 <= j < i ==> clamped@[j] == clamp_point(#[trigger] points@[j]),
                forall|j: int| 0 <= j < i ==> (#[trigger] clamped@[j]).wf(),
            decreases points@.len() - i,
        {
            clamped.push(clamp_point_exec(points[i]));
            i = i + 1;
        }
        Mesh { points: clamped, faces }
    }

    /// Moves one vertex by `delta`, clamping the result into the world
    /// bounds; an out-of-range index leaves the mesh unchanged.
    pub fn move_point(&mut self, point_index: usize, delta: Vector)
        requires
            old(self).wf(),
            delta.wf(),
        ensures
            final(self).faces@ == old(self).faces@,
            final(self).points@.len() == old(self).points@.len(),
            point_index < old(self).points@.len() ==> final(self).points@ == old(self).points@.update(
                point_index as int,
                clamp_point(
                    Point {
                        x: (old(self).points@[point_index as int].x + delta.x) as i64,
                        y: (old(self).points@[point_index as int].y + delta.y) as i64,
                        z: (old(self).points@[point_index as int].z + delta.z) as i64,
                    },
                ),
            ),
            point_index >= old(self).points@.len() ==> final(self).points@ == old(self).points@,
            final(self).wf(),
    {
        if point_index < self.points.len() {
            let p: Point = self.points[point_index];
            let moved: Point = Point { x: p.x + delta.x, y: p.y + delta.y, z: p.z + delta.z };
            let clamped: Point = clamp_point_exec(moved);
            self.points.set(point_index, clamped);
            proof {
                assert(forall|i: int|
                    0 <= i < self.points@.len() ==> (#[trigger] self.points@[i]).wf());
            }
        }
    }

    /// Resolves every face into a colored world-space triangle, in face
    /// order.  Fails on the first face that references a vertex index at
    /// or beyond the vertex count, and reports that face, the offending
    /// index value, and the vertex count.
    pub fn triangulate(&self) -> (r: Result<Vec<Triangle>, RenderError>)
        ensures
            r is Ok <==> faces_valid(self.faces@, self.points@.len() as int),
            r matches Ok(tris) ==> {
                &&& tris@.len() == self.faces@.len()
                &&& forall|i: int| 0 <= i < self.faces@.len() ==> {
                    let f = #[trigger] self.faces@[i];
                    tris@[i].vertices@ =~= seq![
                        self.points@[f.vertices@[0] as int],
                        self.points@[f.vertices@[1] as int],
                        self.points@[f.vertices@[2] as int],
                    ] && tris@[i].color == f.color
                }
            },
            r matches Err(e) ==> {
                &&& exists|i: int| {
                    &&& 0 <= i < self.faces@.len()
                    &&& !face_valid(self.faces@[i], self.points@.len() as int)
                    &&& forall|j: int| 0 <= j < i ==> face_valid(#[trigger] self.faces@[j], self.points@.len() as int)
                    &&& e == (RenderError::InvalidGeometry {
                        face_index: i as usize,
                        vertex_index: first_bad_vertex(self.faces@[i], self.points@.len() as int) as usize,
                        vertex_count: self.points@.len() as usize,
                    })
                }
            },
            self.wf() ==> (r matches Ok(tris) ==> forall|i: int|
                0 <= i < tris@.len() ==> (#[trigger] tris@[i]).wf()),
    {
        let n: usize = self.points.len();
        let mut tris: Vec<Triangle> = Vec::new();
        let mut i: usize = 0;
        while i < self.faces.len()
            invariant
                i <= self.faces@.len(),
                n == self.points@.len(),
                tris@.len() == i,
                forall|j: int| 0 <= j < i ==> face_valid(#[trigger] self.faces@[j], n as int),
                forall|j: int| 0 <= j < i ==> {
                    let f = #[trigger] self.faces@[j];
                    tris@[j].vertices@ =~= seq![
                        self.points@[f.vertices@[0] as int],
                        self.points@[f.vertices@[1] as int],
                        self.points@[f.vertices@[2] as int],
                    ] && tris@[j].color == f.color
                },
                self.wf() ==> forall|j: int| 0 <= j < i ==> (#[trigger] tris@[j]).wf(),
            decreases self.faces@.len() - i,
        {
            let face: &Face = &self.faces[i];
            let v0: usize = face.vertices[0];
            let v1: usize = face.vertices[1];
            let v2: usize = face.vertices[2];
            if v0 >= n || v1 >= n || v2 >= n {
                let bad: usize = if v0 >= n {
                    v0
                } else if v1 >= n {
                    v1
                } else {
                    v2
                };
                return Err(RenderError::InvalidGeometry {
                    face_index: i,
                    vertex_index: bad,
                    vertex_count: n,
                });
            }
            let vertices: [Point; 3] = [self.points[v0], self.points[v1], self.points[v2]];
            tris.push(Triangle::new(vertices, face.color));
            i = i + 1;
        }
        Ok(tris)
    }
}

} // verus!
