use rendering_engine::scene::camera::display::Display;
use rendering_engine::scene::camera::Camera;
use rendering_engine::scene::model::color::Color;
use rendering_engine::scene::model_3d::axis::Axis;
use rendering_engine::scene::model_3d::face::Face;
use rendering_engine::scene::model_3d::mesh::cube;
use rendering_engine::scene::model_3d::mesh::Mesh;
use rendering_engine::scene::model_3d::plane::Plane;
use rendering_engine::scene::model_3d::plane_direction::PlaneDirection;
use rendering_engine::scene::model_3d::point::Point;
use rendering_engine::scene::model_3d::vector::Vector;
use rendering_engine::error::RenderError;
use rendering_engine::trig::TRIG_ONE;

fn test_camera(pitch: i64, yaw: i64, roll: i64) -> Camera {
    Camera::new(
        1600,
        Point { x: 0, y: 0, z: 0 },
        pitch,
        yaw,
        roll,
        Display::new(800, 800),
    )
}

#[test]
fn rotate_adds_and_wraps_pitch() {
    let mut camera = test_camera(350, 0, 0);
    camera.rotate(&Vector { x: 20, y: 0, z: 0 });
    assert_eq!(camera.pitch_angle(), 10);
    assert_eq!(camera.yaw_angle(), 0);
    assert_eq!(camera.roll_angle(), 0);
}

#[test]
fn rotate_wraps_negative_angles_into_range() {
    let mut camera = test_camera(10, 20, 30);
    camera.rotate(&Vector { x: -20, y: -380, z: 330 });
    assert_eq!(camera.pitch_angle(), 350);
    assert_eq!(camera.yaw_angle(), 0);
    assert_eq!(camera.roll_angle(), 0);
}

#[test]
fn rotate_by_full_turns_changes_nothing() {
    let mut camera = test_camera(123, 45, 6);
    camera.rotate(&Vector { x: 360, y: -720, z: 0 });
    assert_eq!(camera.pitch_angle(), 123);
    assert_eq!(camera.yaw_angle(), 45);
    assert_eq!(camera.roll_angle(), 6);
}

#[test]
fn distance_is_zero_on_the_plane() {
    let normal = Vector { x: 0, y: 0, z: TRIG_ONE };
    let plane = Plane::new(normal, Point { x: 0, y: 0, z: 250 });
    let on_plane = Point { x: 37, y: -12, z: 250 };
    assert_eq!(on_plane.distance_from_plane(&plane), 0);
}

#[test]
fn distance_is_signed_offset_from_plane() {
    let normal = Vector { x: 0, y: 0, z: TRIG_ONE };
    let plane = Plane::new(normal, Point { x: 0, y: 0, z: 250 });
    assert_eq!(Point { x: 0, y: 0, z: 280 }.distance_from_plane(&plane), 30);
    assert_eq!(Point { x: 5, y: 9, z: 100 }.distance_from_plane(&plane), -150);
}

#[test]
fn vector_rotation_quarter_turn_about_y() {
    let mut v = Vector { x: 0, y: 0, z: 100 };
    v.rotate(Axis::Y, 90);
    assert_eq!((v.x, v.y, v.z), (100, 0, 0));
}

#[test]
fn vector_rotation_by_zero_is_identity() {
    let mut v = Vector { x: 12, y: -7, z: 45 };
    v.rotate(Axis::X, 0);
    v.rotate(Axis::Y, 0);
    v.rotate(Axis::Z, 0);
    assert_eq!((v.x, v.y, v.z), (12, -7, 45));
}

#[test]
fn created_planes_pass_through_the_center() {
    let camera = Camera::new(
        1600,
        Point { x: 10, y: 20, z: 30 },
        15,
        75,
        230,
        Display::new(800, 800),
    );
    let planes = camera.create_planes();
    let center = Point { x: 10, y: 20, z: 30 };
    assert_eq!(center.distance_from_plane(&planes.yz), 0);
    assert_eq!(center.distance_from_plane(&planes.xz), 0);
    assert_eq!(center.distance_from_plane(&planes.xy), 0);
}

#[test]
fn plane_lookup_covers_all_three_directions() {
    let camera = test_camera(0, 0, 0);
    let planes = camera.create_planes();
    assert_eq!(*planes.get(PlaneDirection::YZ), planes.yz);
    assert_eq!(*planes.get(PlaneDirection::XZ), planes.xz);
    assert_eq!(*planes.get(PlaneDirection::XY), planes.xy);
    assert_eq!(planes.yz.coefficients.a, TRIG_ONE);
    assert_eq!(planes.xz.coefficients.b, TRIG_ONE);
    assert_eq!(planes.xy.coefficients.c, TRIG_ONE);
}

#[test]
fn reposition_moves_along_the_facing() {
    let mut camera = test_camera(0, 0, 0);
    camera.reposition(Vector { x: 1, y: 2, z: 3 });
    assert_eq!(*camera.center(), Point { x: 1, y: 2, z: 3 });
}

#[test]
fn move_focal_length_accumulates() {
    let mut camera = test_camera(0, 0, 0);
    camera.move_focal_length(100);
    assert_eq!(camera.focal_length(), 1700);
    camera.move_focal_length(-2000);
    assert_eq!(camera.focal_length(), -300);
}

#[test]
fn cube_has_eight_corners_and_twelve_faces() {
    let m = cube(Point { x: 0, y: 0, z: 300 }, 100, 100, 100, Color::new(255, 0, 0, 128));
    assert_eq!(m.points.len(), 8);
    assert_eq!(m.faces.len(), 12);
    assert_eq!(m.points[0], Point { x: -50, y: -50, z: 250 });
    assert_eq!(m.points[6], Point { x: 50, y: 50, z: 350 });
    for f in &m.faces {
        assert_eq!(f.color, Color::new(255, 0, 0, 128));
        for &v in &f.vertices {
            assert!(v < 8);
        }
    }
    assert_eq!(m.faces[0].vertices, [0, 1, 2]);
    assert_eq!(m.faces[11].vertices, [0, 7, 3]);
}

#[test]
fn move_point_shifts_one_vertex() {
    let mut m = Mesh::new(
        vec![Point { x: 0, y: 0, z: 0 }, Point { x: 1, y: 1, z: 1 }],
        vec![],
    );
    m.move_point(1, Vector { x: 10, y: -5, z: 2 });
    assert_eq!(m.points[0], Point { x: 0, y: 0, z: 0 });
    assert_eq!(m.points[1], Point { x: 11, y: -4, z: 3 });
    m.move_point(7, Vector { x: 1, y: 1, z: 1 });
    assert_eq!(m.points[1], Point { x: 11, y: -4, z: 3 });
}

#[test]
fn triangulate_resolves_faces_in_order() {
    let red = Color::new(255, 0, 0, 255);
    let blue = Color::new(0, 0, 255, 255);
    let m = Mesh::new(
        vec![
            Point { x: 0, y: 0, z: 10 },
            Point { x: 5, y: 0, z: 10 },
            Point { x: 0, y: 5, z: 10 },
            Point { x: 5, y: 5, z: 10 },
        ],
        vec![Face::new([0, 1, 2], red), Face::new([1, 3, 2], blue)],
    );
    let tris = m.triangulate().unwrap();
    assert_eq!(tris.len(), 2);
    assert_eq!(tris[0].vertices(), [
        Point { x: 0, y: 0, z: 10 },
        Point { x: 5, y: 0, z: 10 },
        Point { x: 0, y: 5, z: 10 },
    ]);
    assert_eq!(tris[0].color(), red);
    assert_eq!(tris[1].vertices(), [
        Point { x: 5, y: 0, z: 10 },
        Point { x: 5, y: 5, z: 10 },
        Point { x: 0, y: 5, z: 10 },
    ]);
    assert_eq!(tris[1].color(), blue);
}

#[test]
fn triangulate_reports_the_first_bad_face() {
    let red = Color::new(255, 0, 0, 255);
    let m = Mesh::new(
        vec![
            Point { x: 0, y: 0, z: 10 },
            Point { x: 5, y: 0, z: 10 },
            Point { x: 0, y: 5, z: 10 },
        ],
        vec![Face::new([0, 1, 2], red), Face::new([1, 5, 2], red)],
    );
    let err = m.triangulate().unwrap_err();
    assert_eq!(
        err,
        RenderError::InvalidGeometry { face_index: 1, vertex_index: 5, vertex_count: 3 }
    );
    assert_eq!(
        err.message(),
        "face references a vertex index outside the mesh's vertex list"
    );
}

#[test]
fn display_resolution_is_capped() {
    let d = Display::new(800, 600);
    assert_eq!((d.width, d.height), (800, 600));
    let huge = Display::new(1_000_000, 1_000_000);
    assert_eq!((huge.width, huge.height), (16384, 16384));
}

#[test]
fn rotation_uses_the_documented_sine_approximation() {
    // sin 30 is exactly one half in fixed point; cos 30 is the rational
    // approximation 28800 * 65536 / 33300 = 56679, truncated.
    let mut v = Vector { x: 0, y: 0, z: 1000 };
    v.rotate(Axis::X, 30);
    assert_eq!((v.x, v.y, v.z), (0, -500, 864));
}
