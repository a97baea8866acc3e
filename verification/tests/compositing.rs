use rendering_engine::engine::color_blender::blend_color;
use rendering_engine::engine::compositor::composite;
use rendering_engine::engine::model::depth_pixel::DepthPixel;
use rendering_engine::engine::rasterizer::ZBuffer;
use rendering_engine::scene::camera::display::Display;
use rendering_engine::scene::model::color::Color;

fn solid_tile(x: i64, y: i64, w: usize, h: usize, color: Color) -> ZBuffer {
    let row: Vec<DepthPixel> = (0..w).map(|_| DepthPixel { color, depth: 0 }).collect();
    ZBuffer { buffer: (0..h).map(|_| row.clone()).collect(), x, y }
}

const WHITE: Color = Color { r: 255, g: 255, b: 255, a: 255 };

#[test]
fn composite_without_tiles_is_the_background() {
    let display = Display::new(4, 3);
    let image = composite(&vec![], &display, Color::new(10, 20, 30, 255));
    assert_eq!(image.len(), 3);
    for row in &image {
        assert_eq!(row.len(), 4);
        for px in row {
            assert_eq!((px.r, px.g, px.b), (10, 20, 30));
        }
    }
}

#[test]
fn tile_outside_the_display_changes_no_pixel() {
    let display = Display::new(4, 4);
    let outside = solid_tile(-10, -10, 3, 3, Color::new(255, 0, 0, 255));
    let image = composite(&vec![outside], &display, Color::new(1, 2, 3, 255));
    for row in &image {
        for px in row {
            assert_eq!((px.r, px.g, px.b), (1, 2, 3));
        }
    }
}

#[test]
fn opaque_sample_replaces_the_background() {
    let display = Display::new(4, 4);
    let tile = solid_tile(1, 2, 1, 1, Color::new(200, 50, 25, 255));
    let image = composite(&vec![tile], &display, WHITE);
    assert_eq!((image[2][1].r, image[2][1].g, image[2][1].b), (200, 50, 25));
    assert_eq!((image[0][0].r, image[0][0].g, image[0][0].b), (255, 255, 255));
}

#[test]
fn transparent_sample_leaves_the_background() {
    let display = Display::new(2, 2);
    let tile = solid_tile(0, 0, 2, 2, Color::new(200, 50, 25, 0));
    let image = composite(&vec![tile], &display, Color::new(9, 9, 9, 255));
    for row in &image {
        for px in row {
            assert_eq!((px.r, px.g, px.b), (9, 9, 9));
        }
    }
}

#[test]
fn half_transparent_sample_blends_halfway() {
    let display = Display::new(1, 1);
    let tile = solid_tile(0, 0, 1, 1, Color::new(255, 0, 0, 128));
    let image = composite(&vec![tile], &display, Color::new(0, 0, 0, 255));
    let px = image[0][0];
    assert_eq!((px.r, px.g, px.b), (128, 0, 0));
}

#[test]
fn later_tiles_paint_over_earlier_ones() {
    let display = Display::new(1, 1);
    let first = solid_tile(0, 0, 1, 1, Color::new(255, 0, 0, 255));
    let second = solid_tile(0, 0, 1, 1, Color::new(0, 255, 0, 255));
    let image = composite(&vec![first, second], &display, WHITE);
    assert_eq!((image[0][0].r, image[0][0].g, image[0][0].b), (0, 255, 0));
}

#[test]
fn blend_color_weighs_both_opacities() {
    let background = Color::new(100, 100, 100, 0);
    let foreground = Color::new(200, 0, 0, 128);
    let blended = blend_color(background, foreground);
    assert_eq!(blended, Color::new(200, 100, 100, 255));
}

#[test]
fn blend_color_saturates_at_full_intensity() {
    let background = Color::new(255, 255, 255, 0);
    let foreground = Color::new(255, 255, 255, 255);
    let blended = blend_color(background, foreground);
    assert_eq!(blended, Color::new(255, 255, 255, 255));
}

#[test]
fn tile_partly_off_screen_paints_only_the_overlap() {
    let display = Display::new(3, 3);
    let tile = solid_tile(-1, -1, 2, 2, Color::new(0, 200, 0, 255));
    let image = composite(&vec![tile], &display, WHITE);
    assert_eq!((image[0][0].r, image[0][0].g, image[0][0].b), (0, 200, 0));
    assert_eq!((image[0][1].r, image[0][1].g, image[0][1].b), (255, 255, 255));
    assert_eq!((image[1][0].r, image[1][0].g, image[1][0].b), (255, 255, 255));
    assert_eq!((image[2][2].r, image[2][2].g, image[2][2].b), (255, 255, 255));
}
