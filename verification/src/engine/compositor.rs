//! The compositor: every tile of a frame merged over a background color
//! into the final image.
//!
//! Tiles are applied strictly in submission order (the painter's
//! algorithm): a sample with nonzero opacity is alpha-blended over
//! whatever earlier tiles produced at that pixel.  The per-sample depth
//! is carried but deliberately not compared across tiles; this
//! reproduces the submission-order policy rather than substituting a
//! depth-compare one.

use vstd::prelude::*;
use crate::math::DISPLAY_MAX;
use crate::scene::camera::display::Display;
use crate::scene::model::color::Color;
use crate::engine::model::pixel::Pixel;
use crate::engine::rasterizer::Tile;
use crate::engine::rasterizer::ZBuffer;

verus! {

/// The final image: one row of opaque pixels per display row.
pub type Image = Vec<Vec<Pixel>>;

/// One blended channel: `((255 - a) * below + a * sample) / 255`.
pub open spec fn spec_blend_channel(below: int, sample: int, a: int) -> int {
    ((255 - a) * below + a * sample) / 255
}

/// A sample alpha-blended over a pixel, channel by channel.
pub open spec fn spec_blend_over(below: Pixel, sample: Color) -> Pixel {
    Pixel {
        r: spec_blend_channel(below.r as int, sample.r as int, sample.a as int) as u8,
        g: spec_blend_channel(below.g as int, sample.g as int, sample.a as int) as u8,
        b: spec_blend_channel(below.b as int, sample.b as int, sample.a as int) as u8,
    }
}

/// Whether the tile has a sample at the given image position.
pub open spec fn spec_covers(t: Tile, row: int, col: int) -> bool {
    &&& 0 <= row - t.y < t.grid.len()
    &&& 0 <= col - t.x < t.grid[row - t.y].len()
}

/// The tile's sample at the given image position.
pub open spec fn spec_sample(t: Tile, row: int, col: int) -> Color {
    t.grid[row - t.y][col - t.x].color
}

/// The image pixel at `(row, col)`: the background, with every covering
/// sample of nonzero opacity blended over it in tile order.
pub open spec fn spec_blend_pixel(tiles: Seq<Tile>, row: int, col: int, background: Color) -> Pixel
    decreases tiles.len(),
{
    if tiles.len() == 0 {
        Pixel { r: background.r, g: background.g, b: background.b }
    } else {
        let below = spec_blend_pixel(tiles.drop_last(), row, col, background);
        let t = tiles.last();
        if spec_covers(t, row, col) && spec_sample(t, row, col).a != 0 {
            spec_blend_over(below, spec_sample(t, row, col))
        } else {
            below
        }
    }
}

/// The tiles of a frame, as ghost state.
pub open spec fn tiles_view(s: Seq<ZBuffer>) -> Seq<Tile> {
    s.map_values(|zb: ZBuffer| zb@)
}

/// A tile that covers no pixel of the display changes no pixel of the
/// image: dropping it from the frame leaves every blended pixel as it
/// was.
pub proof fn lemma_tile_outside_changes_nothing(
    tiles: Seq<Tile>,
    t: Tile,
    row: int,
    col: int,
    background: Color,
)
    requires
        !spec_covers(t, row, col),
    ensures
        spec_blend_pixel(tiles.push(t), row, col, background) == spec_blend_pixel(
            tiles,
            row,
            col,
            background,
        ),
{
    assert(tiles.push(t).drop_last() =~= tiles);
    assert(tiles.push(t).last() == t);
}

/// A fully opaque sample replaces the pixel below it outright.
pub proof fn lemma_opaque_sample_replaces(below: Pixel, sample: Color)
    requires
        sample.a == 255,
    ensures
        spec_blend_over(below, sample) == (Pixel { r: sample.r, g: sample.g, b: sample.b }),
{
    lemma_opaque_channel(below.r as int, sample.r as int);
    lemma_opaque_channel(below.g as int, sample.g as int);
    lemma_opaque_channel(below.b as int, sample.b as int);
}

/// With full opacity the blend formula returns the sample channel.
proof fn lemma_opaque_channel(below: int, sample: int)
    requires
        0 <= sample <= 255,
    ensures
        spec_blend_channel(below, sample, 255) == sample,
{
    assert((255 - 255) * below == 0) by (nonlinear_arith);
    assert((255 * sample) / 255 == sample) by {
        vstd::arithmetic::div_mod::lemma_div_multiples_vanish(sample, 255);
    }
}

/// A sample with zero opacity leaves the pixel below it unchanged:
/// the blend skips it entirely.
pub proof fn lemma_transparent_sample_skipped(
    tiles: Seq<Tile>,
    t: Tile,
    row: int,
    col: int,
    background: Color,
)
    requires
        spec_covers(t, row, col) ==> spec_sample(t, row, col).a == 0,
    ensures
        spec_blend_pixel(tiles.push(t), row, col, background) == spec_blend_pixel(
            tiles,
            row,
            col,
            background,
        ),
{
    assert(tiles.push(t).drop_last() =~= tiles);
    assert(tiles.push(t).last() == t);
}

/// Blends one channel; the result stays a byte.
fn blend_channel(below: u8, sample: u8, a: u8) -> (r: u8)
    ensures
        r as int == spec_blend_channel(below as int, sample as int, a as int),
{
    let am: i64 = a as i64;
    let bl: i64 = below as i64;
    let sm: i64 = sample as i64;
    proof {
        assert(0 <= (255 - am as int) * (bl as int) <= 255 * 255) by (nonlinear_arith)
            requires 0 <= am as int <= 255, 0 <= bl as int <= 255,
        {
        }
        assert(0 <= (am as int) * (sm as int) <= 255 * 255) by (nonlinear_arith)
            requires 0 <= am as int <= 255, 0 <= sm as int <= 255,
        {
        }
    }
    let num: i64 = (255 - am) * bl + am * sm;
    proof {
        assert(0 <= num <= 2 * 255 * 255);
        assert(num <= 255 * 255) by (nonlinear_arith)
            requires
                num == (255 - am as int) * (bl as int) + (am as int) * (sm as int),
                0 <= am as int <= 255,
                0 <= bl as int <= 255,
                0 <= sm as int <= 255,
        {
        }
        vstd::arithmetic::div_mod::lemma_div_pos_is_pos(num as int, 255);
        assert((255int * 255) / 255 == 255) by {
            vstd::arithmetic::div_mod::lemma_div_multiples_vanish(255, 255);
        }
        vstd::arithmetic::div_mod::lemma_div_is_ordered(num as int, 255int * 255, 255);
    }
    (num / 255) as u8
}

/// Blends the covering samples of every tile at one image position, in
/// tile order, over the background.
fn blend_pixel(row: usize, col: usize, z_buffers: &Vec<ZBuffer>, background_color: Color) -> (px: Pixel)
    requires
        row <= DISPLAY_MAX,
        col <= DISPLAY_MAX,
        forall|k: int| 0 <= k < z_buffers@.len() ==> (#[trigger] z_buffers@[k]).wf(),
    ensures
        px == spec_blend_pixel(tiles_view(z_buffers@), row as int, col as int, background_color),
{
    let mut blended: Pixel = Pixel::new(background_color.r, background_color.g, background_color.b);
    let mut k: usize = 0;
    proof {
        assert(tiles_view(z_buffers@).take(0) =~= Seq::<Tile>::empty());
    }
    while k < z_buffers.len()
        invariant
            row <= DISPLAY_MAX,
            col <= DISPLAY_MAX,
            forall|q: int| 0 <= q < z_buffers@.len() ==> (#[trigger] z_buffers@[q]).wf(),
            k <= z_buffers@.len(),
            blended == spec_blend_pixel(
                tiles_view(z_buffers@).take(k as int),
                row as int,
                col as int,
                background_color,
            ),
        decreases z_buffers@.len() - k,
    {
        let zb: &ZBuffer = &z_buffers[k];
        let r_loc: i64 = row as i64 - zb.y;
        let c_loc: i64 = col as i64 - zb.x;
        let ghost prev = blended;
        let ghost t = zb@;
        if r_loc >= 0 && c_loc >= 0 {
            let ru: u64 = r_loc as u64;
            if ru < zb.buffer.len() as u64 {
                let rr: usize = ru as usize;
                let cu: u64 = c_loc as u64;
                if cu < zb.buffer[rr].len() as u64 {
                    let cc: usize = cu as usize;
                    let sample: Color = zb.buffer[rr][cc].color;
                    proof {
                        assert(spec_covers(t, row as int, col as int));
                        assert(spec_sample(t, row as int, col as int) == sample);
                    }
                    if sample.a != 0 {
                        blended = Pixel {
                            r: blend_channel(blended.r, sample.r, sample.a),
                            g: blend_channel(blended.g, sample.g, sample.a),
                            b: blend_channel(blended.b, sample.b, sample.a),
                        };
                    }
                } else {
                    proof {
                        assert(!spec_covers(t, row as int, col as int));
                    }
                }
            } else {
                proof {
                    assert(!spec_covers(t, row as int, col as int));
                }
            }
        } else {
            proof {
                assert(!spec_covers(t, row as int, col as int));
            }
        }
        proof {
            let tv = tiles_view(z_buffers@);
            assert(tv.take(k as int + 1).drop_last() =~= tv.take(k as int));
            assert(tv.take(k as int + 1).last() == tv[k as int]);
            assert(tv[k as int] == t);
        }
        k = k + 1;
    }
    proof {
        assert(tiles_view(z_buffers@).take(z_buffers@.len() as int) =~= tiles_view(z_buffers@));
    }
    blended
}

/// Merges every tile of a frame with the background into the final
/// image: each pixel starts as the background color and every covering
/// sample with nonzero opacity is blended over it, strictly in
/// submission order.
pub fn composite(z_buffers: &Vec<ZBuffer>, display: &Display, background_color: Color) -> (image: Image)
    requires
        display.wf(),
        forall|k: int| 0 <= k < z_buffers@.len() ==> (#[trigger] z_buffers@[k]).wf(),
    ensures
        image@.len() == display.height,
        forall|r: int| 0 <= r < image@.len() ==> (#[trigger] image@[r])@.len() == display.width,
        forall|r: int, c: int| 0 <= r < image@.len() && 0 <= c < image@[r]@.len()
            ==> #[trigger] image@[r]@[c] == spec_blend_pixel(
                tiles_view(z_buffers@),
                r,
                c,
                background_color,
            ),
{
    let mut image: Image = Vec::new();
    let mut r: usize = 0;
    while r < display.height
        invariant
            display.wf(),
            forall|q: int| 0 <= q < z_buffers@.len() ==> (#[trigger] z_buffers@[q]).wf(),
            r <= display.height,
            image@.len() == r,
            forall|i: int| 0 <= i < r ==> (#[trigger] image@[i])@.len() == display.width,
            forall|i: int, j: int| 0 <= i < r && 0 <= j < image@[i]@.len()
                ==> #[trigger] image@[i]@[j] == spec_blend_pixel(
                    tiles_view(z_buffers@),
                    i,
                    j,
                    background_color,
                ),
        decreases display.height - r,
    {
        let mut row_pixels: Vec<Pixel> = Vec::new();
        let mut c: usize = 0;
        while c < display.width
            invariant
                display.wf(),
                forall|q: int| 0 <= q < z_buffers@.len() ==> (#[trigger] z_buffers@[q]).wf(),
                r < display.height,
                c <= display.width,
                row_pixels@.len() == c,
                forall|j: int| 0 <= j < c ==> #[trigger] row_pixels@[j] == spec_blend_pixel(
                    tiles_view(z_buffers@),
                    r as int,
                    j,
                    background_color,
                ),
            decreases display.width - c,
        {
            let px = blend_pixel(r, c, z_buffers, background_color);
            row_pixels.push(px);
            c = c + 1;
        }
        image.push(row_pixels);
        r = r + 1;
    }
    image
}

} // verus!
