use rendering_engine::engine::projector::project;
use rendering_engine::engine::rasterizer::rasterize;
use rendering_engine::engine::rasterizer::ZBuffer;
use rendering_engine::engine::model::z_buffered_triangle::ZBufferedTriangle;
use rendering_engine::engine::model::z_buffered_triangle::ZBufferedVertex;
use rendering_engine::scene::camera::display::Display;
use rendering_engine::scene::camera::Camera;
use rendering_engine::scene::model::color::Color;
use rendering_engine::scene::model_3d::point::Point as Point3D;
use rendering_engine::scene::model_3d::triangle::Triangle as Triangle3D;

fn identity_camera() -> Camera {
    Camera::new(
        1600,
        Point3D { x: 0, y: 0, z: 0 },
        0,
        0,
        0,
        Display::new(800, 800),
    )
}

#[test]
fn identity_pose_projects_pinhole() {
    let camera = identity_camera();
    let planes = camera.create_planes();
    let triangle = Triangle3D::new(
        [
            Point3D { x: 0, y: 0, z: 250 },
            Point3D { x: 0, y: 50, z: 250 },
            Point3D { x: 50, y: 0, z: 250 },
        ],
        Color::new(255, 0, 0, 255),
    );
    let projected = project(&planes, camera.focal_length(), &triangle);
    assert_eq!((projected.vertices[0].x, projected.vertices[0].y), (0, 0));
    assert_eq!((projected.vertices[1].x, projected.vertices[1].y), (0, 320));
    assert_eq!((projected.vertices[2].x, projected.vertices[2].y), (320, 0));
}

#[test]
fn vertex_in_the_depth_plane_falls_back_to_raw_coordinates() {
    let camera = identity_camera();
    let planes = camera.create_planes();
    let triangle = Triangle3D::new(
        [
            Point3D { x: 7, y: 9, z: 0 },
            Point3D { x: 0, y: 50, z: 250 },
            Point3D { x: 50, y: 0, z: 250 },
        ],
        Color::new(0, 255, 0, 255),
    );
    let projected = project(&planes, camera.focal_length(), &triangle);
    assert_eq!((projected.vertices[0].x, projected.vertices[0].y), (7, 9));
}

#[test]
fn projection_scales_inversely_with_depth() {
    let camera = identity_camera();
    let planes = camera.create_planes();
    let triangle = Triangle3D::new(
        [
            Point3D { x: 100, y: 0, z: 400 },
            Point3D { x: 100, y: 0, z: 800 },
            Point3D { x: -100, y: 60, z: 400 },
        ],
        Color::new(0, 0, 255, 255),
    );
    let projected = project(&planes, camera.focal_length(), &triangle);
    assert_eq!((projected.vertices[0].x, projected.vertices[0].y), (400, 0));
    assert_eq!((projected.vertices[1].x, projected.vertices[1].y), (200, 0));
    assert_eq!((projected.vertices[2].x, projected.vertices[2].y), (-400, 240));
}

fn vertex(x: i64, y: i64, distance: i64) -> ZBufferedVertex {
    ZBufferedVertex { x, y, distance }
}

#[test]
fn rasterize_collinear_triangle_yields_a_flat_tile() {
    let zt = ZBufferedTriangle {
        vertices: [vertex(0, 0, 10), vertex(2, 0, 10), vertex(4, 0, 10)],
        color: Color::new(255, 0, 0, 255),
    };
    let zb: ZBuffer = rasterize(&zt);
    assert_eq!((zb.x, zb.y), (0, 0));
    assert_eq!(zb.buffer.len(), 1);
    assert_eq!(zb.buffer[0].len(), 5);
    assert!(zb.buffer[0].iter().any(|px| px.color.a != 0));
}

#[test]
fn rasterize_coincident_vertices_yield_one_cell() {
    let zt = ZBufferedTriangle {
        vertices: [vertex(3, 4, 7), vertex(3, 4, 7), vertex(3, 4, 7)],
        color: Color::new(9, 8, 7, 200),
    };
    let zb = rasterize(&zt);
    assert_eq!((zb.x, zb.y), (3, 4));
    assert_eq!(zb.buffer.len(), 1);
    assert_eq!(zb.buffer[0].len(), 1);
    assert_eq!(zb.buffer[0][0].color, Color::new(9, 8, 7, 200));
    assert_eq!(zb.buffer[0][0].depth, 7);
}

#[test]
fn rasterize_fills_the_triangle_interior() {
    let zt = ZBufferedTriangle {
        vertices: [vertex(0, 0, 10), vertex(20, 0, 10), vertex(0, 20, 10)],
        color: Color::new(255, 0, 0, 255),
    };
    let zb = rasterize(&zt);
    assert_eq!((zb.x, zb.y), (0, 0));
    assert_eq!(zb.buffer.len(), 21);
    assert_eq!(zb.buffer[0].len(), 21);
    let interior = zb.buffer[5][5];
    assert_eq!((interior.color.r, interior.color.g, interior.color.b), (255, 0, 0));
    assert!(interior.color.a != 0);
    for row in &zb.buffer {
        for px in row {
            assert!(
                px.color.a == 0 && px.color.r == 0 && px.color.g == 0 && px.color.b == 0
                    && px.depth == 0
                    || (px.color.r, px.color.g, px.color.b) == (255, 0, 0)
            );
        }
    }
}

#[test]
fn rasterize_keeps_depth_between_the_endpoints() {
    let zt = ZBufferedTriangle {
        vertices: [vertex(0, 0, 100), vertex(10, 0, 200), vertex(0, 10, 150)],
        color: Color::new(1, 2, 3, 255),
    };
    let zb = rasterize(&zt);
    for row in &zb.buffer {
        for px in row {
            if px.color.a != 0 {
                assert!(100 <= px.depth && px.depth <= 200);
            }
        }
    }
}

#[test]
fn rasterize_origin_is_the_bounding_box_corner() {
    let zt = ZBufferedTriangle {
        vertices: [vertex(-5, 12, 1), vertex(9, -3, 1), vertex(2, 2, 1)],
        color: Color::new(10, 20, 30, 40),
    };
    let zb = rasterize(&zt);
    assert_eq!((zb.x, zb.y), (-5, -3));
    assert_eq!(zb.buffer.len(), 16);
    assert_eq!(zb.buffer[0].len(), 15);
}
