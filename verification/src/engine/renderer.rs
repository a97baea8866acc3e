//! The render entry point: one camera, a set of meshes, a background
//! color, one complete image.
//!
//! Every mesh is triangulated, each triangle projected through the
//! camera's planes, converted to bitmap coordinates, rasterized into a
//! tile, and all tiles composited in order.  The call is pure: the image
//! is a function of the camera, the meshes and the background alone.

use vstd::prelude::*;
use vstd::math::abs;
use crate::error::RenderError;
use crate::math::spec_clamp;
use crate::math::clamp_i64;
use crate::math::CLIP_MAX;
use crate::math::DIST_MAX;
use crate::math::WORLD_MAX;
use crate::scene::camera::spec_camera_planes;
use crate::scene::camera::Camera;
use crate::scene::camera::CameraPlanes;
use crate::scene::camera::display::Display;
use crate::scene::model::color::Color;
use crate::scene::model_2d::triangle::Triangle as Triangle2D;
use crate::scene::model_3d::face::Face;
use crate::scene::model_3d::mesh::face_valid;
use crate::scene::model_3d::mesh::faces_valid;
use crate::scene::model_3d::mesh::first_bad_vertex;
use crate::scene::model_3d::mesh::Mesh;
use crate::scene::model_3d::point::Point as Point3D;
use crate::scene::model_3d::triangle::Triangle as Triangle3D;
use crate::engine::compositor::composite;
use crate::engine::compositor::spec_blend_pixel;
use crate::engine::compositor::tiles_view;
use crate::engine::compositor::Image;
use crate::engine::model::pixel::Pixel;
use crate::engine::model::z_buffered_triangle::ZBufferedTriangle;
use crate::engine::model::z_buffered_triangle::ZBufferedVertex;
use crate::engine::projector::project;
use crate::engine::projector::spec_project_vertex;
use crate::engine::rasterizer::rasterize;
use crate::engine::rasterizer::spec_tile;
use crate::engine::rasterizer::Tile;
use crate::engine::rasterizer::ZBuffer;

verus! {

/// A projected vertex converted into bitmap space: the screen origin
/// moves to the display's center, the y axis flips to point down, and
/// the coordinates are clamped into the clip window; the camera-space
/// depth rides along.
pub open spec fn spec_z_buffered_vertex(p: (int, int), z: i64, display: Display) -> ZBufferedVertex {
    ZBufferedVertex {
        x: spec_clamp(p.0 + display.width as int / 2, -CLIP_MAX as int, CLIP_MAX as int) as i64,
        y: spec_clamp(display.height as int / 2 - p.1, -CLIP_MAX as int, CLIP_MAX as int) as i64,
        distance: z,
    }
}

/// The tile one face rasterizes to, as ghost state: its three vertices
/// projected, converted to bitmap space, and rasterized.
pub open spec fn spec_face_tile(
    planes: CameraPlanes,
    focal: int,
    display: Display,
    points: Seq<Point3D>,
    f: Face,
) -> Tile {
    let a = points[f.vertices@[0] as int];
    let b = points[f.vertices@[1] as int];
    let c = points[f.vertices@[2] as int];
    let va = spec_z_buffered_vertex(spec_project_vertex(planes, focal, a), a.z, display);
    let vb = spec_z_buffered_vertex(spec_project_vertex(planes, focal, b), b.z, display);
    let vc = spec_z_buffered_vertex(spec_project_vertex(planes, focal, c), c.z, display);
    spec_tile(va, vb, vc, f.color)
}

/// The tiles of one mesh, in face order.
pub open spec fn spec_mesh_tiles(
    planes: CameraPlanes,
    focal: int,
    display: Display,
    m: Mesh,
) -> Seq<Tile> {
    Seq::new(m.faces@.len(), |i: int| spec_face_tile(planes, focal, display, m.points@, m.faces@[i]))
}

/// The tiles of a whole scene: every mesh's tiles, in mesh order.
pub open spec fn spec_scene_tiles(
    planes: CameraPlanes,
    focal: int,
    display: Display,
    meshes: Seq<Mesh>,
) -> Seq<Tile>
    decreases meshes.len(),
{
    if meshes.len() == 0 {
        Seq::empty()
    } else {
        spec_scene_tiles(planes, focal, display, meshes.drop_last()) + spec_mesh_tiles(
            planes,
            focal,
            display,
            meshes.last(),
        )
    }
}

/// Every face of every mesh references only existing vertices.
pub open spec fn spec_meshes_valid(meshes: Seq<Mesh>) -> bool {
    forall|m: int| 0 <= m < meshes.len() ==> faces_valid(
        (#[trigger] meshes[m]).faces@,
        meshes[m].points@.len() as int,
    )
}

/// The image a render call produces: every pixel is the background with
/// the scene's tiles blended over it in order.
pub open spec fn spec_render(cam: Camera, meshes: Seq<Mesh>, background: Color) -> Seq<Seq<Pixel>> {
    let planes = spec_camera_planes(cam);
    let tiles = spec_scene_tiles(planes, cam.focal_length as int, cam.display, meshes);
    Seq::new(
        cam.display.height as nat,
        |r: int| Seq::new(
            cam.display.width as nat,
            |c: int| spec_blend_pixel(tiles, r, c, background),
        ),
    )
}

/// An image as a sequence of pixel rows.
pub open spec fn image_view(image: Image) -> Seq<Seq<Pixel>> {
    Seq::new(image@.len(), |r: int| image@[r]@)
}

/// Rendering is deterministic: two images that both meet the render
/// contract for the same camera, meshes and background are pixel for
/// pixel identical.
pub proof fn lemma_render_deterministic(
    img1: Seq<Seq<Pixel>>,
    img2: Seq<Seq<Pixel>>,
    cam: Camera,
    meshes: Seq<Mesh>,
    background: Color,
)
    requires
        img1 == spec_render(cam, meshes, background),
        img2 == spec_render(cam, meshes, background),
    ensures
        img1 == img2,
{
}

/// Converts one projected triangle into bitmap space, pairing each
/// screen vertex with its world vertex's depth.
fn z_buffer_triangle(
    triangle2d: &Triangle2D,
    triangle3d: &Triangle3D,
    display: &Display,
    color: Color,
) -> (zt: ZBufferedTriangle)
    requires
        display.wf(),
        triangle3d.wf(),
        forall|i: int| 0 <= i < 3 ==> abs(#[trigger] triangle2d.vertices@[i].x as int)
            <= (WORLD_MAX as int) * (DIST_MAX as int),
        forall|i: int| 0 <= i < 3 ==> abs(#[trigger] triangle2d.vertices@[i].y as int)
            <= (WORLD_MAX as int) * (DIST_MAX as int),
    ensures
        forall|i: int| 0 <= i < 3 ==> #[trigger] zt.vertices@[i] == spec_z_buffered_vertex(
            (triangle2d.vertices@[i].x as int, triangle2d.vertices@[i].y as int),
            triangle3d.vertices@[i].z,
            *display,
        ),
        zt.color == color,
        zt.wf(),
{
    let offset_width: i64 = (display.width / 2) as i64;
    let offset_height: i64 = (display.height / 2) as i64;
    let v2 = &triangle2d.vertices;
    let v3 = triangle3d.vertices();
    let va = ZBufferedVertex {
        x: clamp_i64(v2[0].x + offset_width, -CLIP_MAX, CLIP_MAX),
        y: clamp_i64(offset_height - v2[0].y, -CLIP_MAX, CLIP_MAX),
        distance: v3[0].z,
    };
    let vb = ZBufferedVertex {
        x: clamp_i64(v2[1].x + offset_width, -CLIP_MAX, CLIP_MAX),
        y: clamp_i64(offset_height - v2[1].y, -CLIP_MAX, CLIP_MAX),
        distance: v3[1].z,
    };
    let vc = ZBufferedVertex {
        x: clamp_i64(v2[2].x + offset_width, -CLIP_MAX, CLIP_MAX),
        y: clamp_i64(offset_height - v2[2].y, -CLIP_MAX, CLIP_MAX),
        distance: v3[2].z,
    };
    ZBufferedTriangle { vertices: [va, vb, vc], color }
}

/// Renders one camera's view of the given meshes over a background
/// color.  Each mesh is triangulated, every triangle projected,
/// converted to bitmap space, rasterized, and all tiles composited in
/// order; the first face that references a missing vertex aborts the
/// call with `InvalidGeometry` and no image is produced.
#[verifier::rlimit(100)]
pub fn render(camera: &Camera, meshes: &Vec<Mesh>, background_color: Color) -> (res: Result<
    Image,
    RenderError,
>)
    requires
        camera.wf(),
        forall|m: int| 0 <= m < meshes@.len() ==> (#[trigger] meshes@[m]).wf(),
    ensures
        res is Ok <==> spec_meshes_valid(meshes@),
        res matches Ok(image) ==> image_view(image) == spec_render(
            *camera,
            meshes@,
            background_color,
        ),
        res matches Err(e) ==> exists|m: int| {
            &&& 0 <= m < meshes@.len()
            &&& !faces_valid((#[trigger] meshes@[m]).faces@, meshes@[m].points@.len() as int)
            &&& forall|j: int| 0 <= j < m ==> faces_valid(
                (#[trigger] meshes@[j]).faces@,
                meshes@[j].points@.len() as int,
            )
            &&& exists|i: int| {
                &&& 0 <= i < meshes@[m].faces@.len()
                &&& !face_valid(meshes@[m].faces@[i], meshes@[m].points@.len() as int)
                &&& forall|j: int| 0 <= j < i ==> face_valid(
                    #[trigger] meshes@[m].faces@[j],
                    meshes@[m].points@.len() as int,
                )
                &&& e == (RenderError::InvalidGeometry {
                    face_index: i as usize,
                    vertex_index: first_bad_vertex(
                        meshes@[m].faces@[i],
                        meshes@[m].points@.len() as int,
                    ) as usize,
                    vertex_count: meshes@[m].points@.len() as usize,
                })
            }
        },
{
    let camera_planes: CameraPlanes = camera.create_planes();
    let ghost planes = spec_camera_planes(*camera);
    let ghost focal = camera.focal_length as int;
    let ghost disp = camera.display;
    let mut z_buffers: Vec<ZBuffer> = Vec::new();
    let mut m: usize = 0;
    while m < meshes.len()
        invariant
            camera.wf(),
            forall|q: int| 0 <= q < meshes@.len() ==> (#[trigger] meshes@[q]).wf(),
            camera_planes == planes,
            planes == spec_camera_planes(*camera),
            camera_planes.wf(),
            focal == camera.focal_length as int,
            disp == camera.display,
            m <= meshes@.len(),
            forall|j: int| 0 <= j < m ==> faces_valid(
                (#[trigger] meshes@[j]).faces@,
                meshes@[j].points@.len() as int,
            ),
            tiles_view(z_buffers@) == spec_scene_tiles(planes, focal, disp, meshes@.take(m as int)),
            forall|k: int| 0 <= k < z_buffers@.len() ==> (#[trigger] z_buffers@[k]).wf(),
        decreases meshes@.len() - m,
    {
        let mesh: &Mesh = &meshes[m];
        let triangles: Vec<Triangle3D> = match mesh.triangulate() {
            Ok(t) => t,
            Err(e) => {
                return Err(e);
            }
        };
        let mut t: usize = 0;
        while t < triangles.len()
            invariant
                camera.wf(),
                forall|q: int| 0 <= q < meshes@.len() ==> (#[trigger] meshes@[q]).wf(),
                camera_planes == planes,
                planes == spec_camera_planes(*camera),
                camera_planes.wf(),
                focal == camera.focal_length as int,
                disp == camera.display,
                m < meshes@.len(),
                mesh == meshes@[m as int],
                faces_valid(mesh.faces@, mesh.points@.len() as int),
                triangles@.len() == mesh.faces@.len(),
                forall|i: int| 0 <= i < triangles@.len() ==> (#[trigger] triangles@[i]).wf(),
                forall|i: int| 0 <= i < mesh.faces@.len() ==> {
                    let f = #[trigger] mesh.faces@[i];
                    triangles@[i].vertices@ =~= seq![
                        mesh.points@[f.vertices@[0] as int],
                        mesh.points@[f.vertices@[1] as int],
                        mesh.points@[f.vertices@[2] as int],
                    ] && triangles@[i].color == f.color
                },
                t <= triangles@.len(),
                tiles_view(z_buffers@) == spec_scene_tiles(planes, focal, disp, meshes@.take(m as int))
                    + spec_mesh_tiles(planes, focal, disp, meshes@[m as int]).take(t as int),
                forall|k: int| 0 <= k < z_buffers@.len() ==> (#[trigger] z_buffers@[k]).wf(),
            decreases triangles@.len() - t,
        {
            let triangle3d: &Triangle3D = &triangles[t];
            let triangle2d: Triangle2D = project(&camera_planes, camera.focal_length, triangle3d);
            let zt: ZBufferedTriangle = z_buffer_triangle(
                &triangle2d,
                triangle3d,
                &camera.display,
                triangle3d.color(),
            );
            let zb: ZBuffer = rasterize(&zt);
            proof {
                let f = mesh.faces@[t as int];
                assert(zt.vertices@[0] == spec_z_buffered_vertex(
                    spec_project_vertex(planes, focal, mesh.points@[f.vertices@[0] as int]),
                    mesh.points@[f.vertices@[0] as int].z,
                    disp,
                ));
                assert(zt.vertices@[1] == spec_z_buffered_vertex(
                    spec_project_vertex(planes, focal, mesh.points@[f.vertices@[1] as int]),
                    mesh.points@[f.vertices@[1] as int].z,
                    disp,
                ));
                assert(zt.vertices@[2] == spec_z_buffered_vertex(
                    spec_project_vertex(planes, focal, mesh.points@[f.vertices@[2] as int]),
                    mesh.points@[f.vertices@[2] as int].z,
                    disp,
                ));
                assert(zb@ == spec_face_tile(planes, focal, disp, mesh.points@, f));
            }
            let ghost zbs_prev = z_buffers@;
            z_buffers.push(zb);
            proof {
                let mt = spec_mesh_tiles(planes, focal, disp, meshes@[m as int]);
                let prefix = spec_scene_tiles(planes, focal, disp, meshes@.take(m as int));
                assert(z_buffers@ == zbs_prev.push(zb));
                assert(tiles_view(zbs_prev.push(zb)) =~= tiles_view(zbs_prev).push(zb@));
                assert(zb@ == mt[t as int]);
                assert(mt.take(t as int + 1) =~= mt.take(t as int).push(mt[t as int]));
                assert((prefix + mt.take(t as int)).push(mt[t as int]) =~= prefix + mt.take(
                    t as int,
                ).push(mt[t as int]));
                assert(tiles_view(z_buffers@) =~= prefix + mt.take(t as int + 1));
            }
            t = t + 1;
        }
        proof {
            let mt = spec_mesh_tiles(planes, focal, disp, meshes@[m as int]);
            assert(mt.take(triangles@.len() as int) =~= mt);
            assert(meshes@.take(m as int + 1).drop_last() =~= meshes@.take(m as int));
            assert(meshes@.take(m as int + 1).last() == meshes@[m as int]);
            assert(spec_scene_tiles(planes, focal, disp, meshes@.take(m as int + 1))
                == spec_scene_tiles(planes, focal, disp, meshes@.take(m as int)) + mt);
        }
        m = m + 1;
    }
    proof {
        assert(meshes@.take(meshes@.len() as int) =~= meshes@);
    }
    let image: Image = composite(&z_buffers, &camera.display, background_color);
    proof {
        assert(image_view(image) =~~= spec_render(*camera, meshes@, background_color));
    }
    Ok(image)
}

} // verus!
