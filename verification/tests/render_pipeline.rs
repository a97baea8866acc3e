use rendering_engine::engine::renderer::render;
use rendering_engine::error::RenderError;
use rendering_engine::scene::camera::display::Display;
use rendering_engine::scene::camera::Camera;
use rendering_engine::scene::model::color::Color;
use rendering_engine::scene::model_3d::face::Face;
use rendering_engine::scene::model_3d::mesh::Mesh;
use rendering_engine::scene::model_3d::point::Point as Point3D;

const WHITE: Color = Color { r: 255, g: 255, b: 255, a: 255 };
const RED: Color = Color { r: 255, g: 0, b: 0, a: 255 };

fn camera_800() -> Camera {
    Camera::new(
        1600,
        Point3D { x: 0, y: 0, z: 0 },
        0,
        0,
        0,
        Display::new(800, 800),
    )
}

fn red_triangle_mesh() -> Mesh {
    Mesh::new(
        vec![
            Point3D { x: 0, y: 0, z: 250 },
            Point3D { x: 0, y: 50, z: 250 },
            Point3D { x: 50, y: 0, z: 250 },
        ],
        vec![Face::new([0, 1, 2], RED)],
    )
}

#[test]
fn one_red_triangle_renders_red_pixels() {
    let camera = camera_800();
    let meshes = vec![red_triangle_mesh()];
    let image = render(&camera, &meshes, WHITE).unwrap();
    assert_eq!(image.len(), 800);
    assert_eq!(image[0].len(), 800);
    let red_pixels: usize = image
        .iter()
        .map(|row| row.iter().filter(|px| (px.r, px.g, px.b) == (255, 0, 0)).count())
        .sum();
    assert!(red_pixels > 0);
}

#[test]
fn origin_vertex_lands_on_the_image_center() {
    let camera = camera_800();
    let meshes = vec![red_triangle_mesh()];
    let image = render(&camera, &meshes, WHITE).unwrap();
    let px = image[400][400];
    assert_eq!((px.r, px.g, px.b), (255, 0, 0));
}

#[test]
fn rendering_twice_gives_identical_images() {
    let camera = camera_800();
    let meshes = vec![red_triangle_mesh()];
    let first = render(&camera, &meshes, WHITE).unwrap();
    let second = render(&camera, &meshes, WHITE).unwrap();
    assert_eq!(first, second);
}

#[test]
fn untouched_pixels_keep_the_background() {
    let camera = camera_800();
    let meshes = vec![red_triangle_mesh()];
    let image = render(&camera, &meshes, WHITE).unwrap();
    let corner = image[0][0];
    assert_eq!((corner.r, corner.g, corner.b), (255, 255, 255));
}

#[test]
fn invalid_face_aborts_the_render() {
    let camera = camera_800();
    let meshes = vec![Mesh::new(
        vec![Point3D { x: 0, y: 0, z: 250 }],
        vec![Face::new([0, 0, 9], RED)],
    )];
    let err = render(&camera, &meshes, WHITE).unwrap_err();
    assert_eq!(
        err,
        RenderError::InvalidGeometry { face_index: 0, vertex_index: 9, vertex_count: 1 }
    );
}

#[test]
fn empty_scene_renders_the_background() {
    let camera = camera_800();
    let image = render(&camera, &vec![], Color::new(3, 5, 7, 255)).unwrap();
    assert_eq!(image.len(), 800);
    for row in image.iter().step_by(97) {
        for px in row.iter().step_by(97) {
            assert_eq!((px.r, px.g, px.b), (3, 5, 7));
        }
    }
}
