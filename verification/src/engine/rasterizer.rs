//! The rasterizer: one depth-tagged tile per triangle.
//!
//! A triangle's bounding box becomes a local pixel buffer; its three
//! edges are drawn as antialiased lines stepped along the major axis
//! with fractional coverage split over two adjacent pixels, and the
//! outline is filled row by row between the strongest edge pixels found
//! from the left and from the right.

use vstd::prelude::*;
use vstd::math::abs;
use crate::math::div_trunc;
use crate::math::lemma_div_trunc_bound;
use crate::math::lemma_mul_bound;
use crate::math::WORLD_MAX;
use crate::scene::model::color::Color;
use crate::engine::model::depth_pixel::DepthPixel;
use crate::engine::model::z_buffered_triangle::ZBufferedTriangle;
use crate::engine::model::z_buffered_triangle::ZBufferedVertex;

verus! {

/// Largest tile-local coordinate a line endpoint may have.
pub const TILE_MAX: i64 = 65536;

/// A tile's pixel rows.
pub type DepthPixelBuffer = Vec<Vec<DepthPixel>>;

/// One rasterized triangle: its pixel buffer and the bitmap-space
/// position of the buffer's top-left corner.
pub struct ZBuffer {
    pub buffer: DepthPixelBuffer,
    pub x: i64,
    pub y: i64,
}

/// The buffer as a sequence of pixel rows.
pub open spec fn grid_view(b: Vec<Vec<DepthPixel>>) -> Seq<Seq<DepthPixel>> {
    Seq::new(b@.len(), |r: int| b@[r]@)
}

/// The mathematical model of a tile: its samples and its bitmap-space
/// origin.
pub ghost struct Tile {
    pub grid: Seq<Seq<DepthPixel>>,
    pub x: int,
    pub y: int,
}

impl View for ZBuffer {
    type V = Tile;

    open spec fn view(&self) -> Tile {
        Tile { grid: grid_view(self.buffer), x: self.x as int, y: self.y as int }
    }
}

impl ZBuffer {
    /// The origin is inside the clip window and the buffer no larger
    /// than the clip window allows.
    pub open spec fn wf(self) -> bool {
        &&& abs(self.x as int) <= crate::math::CLIP_MAX as int
        &&& abs(self.y as int) <= crate::math::CLIP_MAX as int
        &&& self.buffer@.len() <= 2 * crate::math::CLIP_MAX as int + 1
        &&& forall|r: int| 0 <= r < self.buffer@.len() ==> (#[trigger] self.buffer@[r])@.len()
            <= 2 * crate::math::CLIP_MAX as int + 1
    }
}

/// The grid with the sample at `(row, col)` replaced; writes outside the
/// grid are dropped.
pub open spec fn spec_set_pixel(
    g: Seq<Seq<DepthPixel>>,
    row: int,
    col: int,
    px: DepthPixel,
) -> Seq<Seq<DepthPixel>> {
    if 0 <= row < g.len() && 0 <= col < g[row].len() {
        g.update(row, g[row].update(col, px))
    } else {
        g
    }
}

/// Every sample's depth is within `m`.
pub open spec fn depths_bounded(g: Seq<Seq<DepthPixel>>, m: int) -> bool {
    forall|r: int, c: int|
        0 <= r < g.len() && 0 <= c < g[r].len() ==> abs((#[trigger] g[r][c]).depth as int) <= m
}

/// Every sample is either untouched (zero opacity) or carries the
/// triangle's color channels.
pub open spec fn tile_pure(g: Seq<Seq<DepthPixel>>, color: Color) -> bool {
    forall|r: int, c: int|
        0 <= r < g.len() && 0 <= c < g[r].len() ==> pixel_pure(#[trigger] g[r][c], color)
}

/// The sample is blank or carries the triangle's color channels.
pub open spec fn pixel_pure(px: DepthPixel, color: Color) -> bool {
    ||| px == (DepthPixel { color: Color { r: 0u8, g: 0u8, b: 0u8, a: 0u8 }, depth: 0i64 })
    ||| (px.color.r == color.r && px.color.g == color.g && px.color.b == color.b)
}

/// Writes one sample, ignoring coordinates outside the buffer.
fn set_pixel(pixel_buffer: &mut Vec<Vec<DepthPixel>>, row: i64, col: i64, px: DepthPixel)
    ensures
        grid_view(*final(pixel_buffer)) == spec_set_pixel(
            grid_view(*old(pixel_buffer)),
            row as int,
            col as int,
            px,
        ),
{
    let ghost g0 = grid_view(*pixel_buffer);
    if row >= 0 && col >= 0 {
        let ru: u64 = row as u64;
        let cu: u64 = col as u64;
        if ru < pixel_buffer.len() as u64 {
            let r: usize = ru as usize;
            if cu < pixel_buffer[r].len() as u64 {
                let c: usize = cu as usize;
                pixel_buffer[r][c] = px;
                proof {
                    assert(grid_view(*pixel_buffer) =~~= spec_set_pixel(g0, row as int, col as int, px));
                }
                return ;
            }
        }
    }
    proof {
        assert(grid_view(*pixel_buffer) =~~= spec_set_pixel(g0, row as int, col as int, px));
    }
}

/// The depth interpolated a fraction `i / steps` of the way from `d0`
/// to `d1`.
pub open spec fn spec_lerp(d0: int, d1: int, i: int, steps: int) -> int {
    d0 + div_trunc((d1 - d0) * i, steps)
}

/// Interpolated depths never leave the segment between the endpoints.
pub proof fn lemma_lerp_in_hull(d0: int, d1: int, i: int, steps: int)
    requires
        1 <= steps,
        0 <= i <= steps,
    ensures
        vstd::math::min(d0, d1) <= spec_lerp(d0, d1, i, steps) <= vstd::math::max(d0, d1),
{
    let delta = d1 - d0;
    assert(abs(delta * i) <= abs(delta) * steps) by (nonlinear_arith)
        requires 0 <= i <= steps,
    {
    }
    lemma_div_trunc_bound(delta * i, steps, abs(delta) as int);
    if delta >= 0 {
        assert(delta * i >= 0) by (nonlinear_arith)
            requires delta >= 0, i >= 0,
        {
        }
        vstd::arithmetic::div_mod::lemma_div_pos_is_pos(delta * i, steps);
    } else {
        assert(delta * i <= 0) by (nonlinear_arith)
            requires delta <= 0, i >= 0,
        {
        }
        vstd::arithmetic::div_mod::lemma_div_pos_is_pos(-(delta * i), steps);
    }
}

/// The number of major-axis steps of the line from `p0` to `p1`.
pub open spec fn spec_line_steps(p0: ZBufferedVertex, p1: ZBufferedVertex) -> int {
    vstd::math::max(abs(p1.x - p0.x) as int, abs(p1.y - p0.y) as int)
}

/// The two samples of line step `i` written into `g`: the step walks one
/// pixel along the major axis; along the minor axis it carries a
/// fixed-point position whose fractional part splits the opacity between
/// the two adjacent pixels.
pub open spec fn spec_line_step(
    g: Seq<Seq<DepthPixel>>,
    p0: ZBufferedVertex,
    p1: ZBufferedVertex,
    color: Color,
    i: int,
) -> Seq<Seq<DepthPixel>> {
    let x0 = p0.x as int;
    let y0 = p0.y as int;
    let x1 = p1.x as int;
    let y1 = p1.y as int;
    let dx = x1 - x0;
    let dy = y1 - y0;
    let steps = spec_line_steps(p0, p1);
    let depth = spec_lerp(p0.distance as int, p1.distance as int, i, steps);
    if abs(dx) >= abs(dy) {
        let xi = x0 + div_trunc(dx * i, steps);
        let yfp = y0 * 256 + div_trunc(dy * 256 * i, steps);
        let base = div_trunc(yfp, 256);
        let frac = yfp - 256 * base;
        let g1 = spec_set_pixel(
            g,
            base,
            xi,
            DepthPixel {
                color: Color {
                    r: color.r,
                    g: color.g,
                    b: color.b,
                    a: ((color.a * (256 - frac)) / 256) as u8,
                },
                depth: depth as i64,
            },
        );
        if frac > 0 {
            spec_set_pixel(
                g1,
                base + 1,
                xi,
                DepthPixel {
                    color: Color {
                        r: color.r,
                        g: color.g,
                        b: color.b,
                        a: ((color.a * frac) / 256) as u8,
                    },
                    depth: depth as i64,
                },
            )
        } else {
            g1
        }
    } else {
        let yi = y0 + div_trunc(dy * i, steps);
        let xfp = x0 * 256 + div_trunc(dx * 256 * i, steps);
        let base = div_trunc(xfp, 256);
        let frac = xfp - 256 * base;
        let g1 = spec_set_pixel(
            g,
            yi,
            base,
            DepthPixel {
                color: Color {
                    r: color.r,
                    g: color.g,
                    b: color.b,
                    a: ((color.a * (256 - frac)) / 256) as u8,
                },
                depth: depth as i64,
            },
        );
        if frac > 0 {
            spec_set_pixel(
                g1,
                yi,
                base + 1,
                DepthPixel {
                    color: Color {
                        r: color.r,
                        g: color.g,
                        b: color.b,
                        a: ((color.a * frac) / 256) as u8,
                    },
                    depth: depth as i64,
                },
            )
        } else {
            g1
        }
    }
}

/// The first `n` line steps applied in order.
pub open spec fn spec_draw_line_n(
    g: Seq<Seq<DepthPixel>>,
    p0: ZBufferedVertex,
    p1: ZBufferedVertex,
    color: Color,
    n: int,
) -> Seq<Seq<DepthPixel>>
    decreases n,
{
    if n <= 0 {
        g
    } else {
        spec_line_step(spec_draw_line_n(g, p0, p1, color, n - 1), p0, p1, color, n - 1)
    }
}

/// The whole line from `p0` to `p1` drawn into `g`: one step per major
/// axis pixel,
/// or a single full-opacity sample when both endpoints share a pixel.
pub open spec fn spec_draw_line(
    g: Seq<Seq<DepthPixel>>,
    p0: ZBufferedVertex,
    p1: ZBufferedVertex,
    color: Color,
) -> Seq<Seq<DepthPixel>> {
    let steps = spec_line_steps(p0, p1);
    if steps == 0 {
        spec_set_pixel(
            g,
            p0.y as int,
            p0.x as int,
            DepthPixel { color, depth: p0.distance },
        )
    } else {
        spec_draw_line_n(g, p0, p1, color, steps + 1)
    }
}

/// A write inside the grid keeps its shape; a bounded, color-pure sample
/// keeps the grid bounded and pure.
proof fn lemma_set_pixel_props(g: Seq<Seq<DepthPixel>>, row: int, col: int, px: DepthPixel, m: int, color: Color)
    ensures
        spec_set_pixel(g, row, col, px).len() == g.len(),
        forall|r: int| 0 <= r < g.len() ==> #[trigger] spec_set_pixel(g, row, col, px)[r].len() == g[r].len(),
        depths_bounded(g, m) && abs(px.depth as int) <= m ==> depths_bounded(spec_set_pixel(g, row, col, px), m),
        tile_pure(g, color) && pixel_pure(px, color) ==> tile_pure(spec_set_pixel(g, row, col, px), color),
{
}

/// One line step keeps the grid's shape, its depth bound, and its color
/// purity, as long as the endpoints' depths respect the bound.
proof fn lemma_line_step_props(
    g: Seq<Seq<DepthPixel>>,
    p0: ZBufferedVertex,
    p1: ZBufferedVertex,
    color: Color,
    i: int,
    m: int,
)
    requires
        0 <= m,
        abs(p0.distance as int) <= m,
        abs(p1.distance as int) <= m,
        1 <= spec_line_steps(p0, p1),
        0 <= i <= spec_line_steps(p0, p1),
    ensures
        spec_line_step(g, p0, p1, color, i).len() == g.len(),
        forall|r: int| 0 <= r < g.len() ==> #[trigger] spec_line_step(g, p0, p1, color, i)[r].len() == g[r].len(),
        depths_bounded(g, m) ==> depths_bounded(spec_line_step(g, p0, p1, color, i), m),
        tile_pure(g, color) ==> tile_pure(spec_line_step(g, p0, p1, color, i), color),
{
    let steps = spec_line_steps(p0, p1);
    lemma_lerp_in_hull(p0.distance as int, p1.distance as int, i, steps);
    let depth = spec_lerp(p0.distance as int, p1.distance as int, i, steps);
    assert(abs(depth as i64 as int) <= m);
    let x0 = p0.x as int;
    let y0 = p0.y as int;
    let dx = p1.x - x0;
    let dy = p1.y - y0;
    if abs(dx) >= abs(dy) {
        let xi = x0 + div_trunc(dx * i, steps);
        let yfp = y0 * 256 + div_trunc(dy * 256 * i, steps);
        let base = div_trunc(yfp, 256);
        let frac = yfp - 256 * base;
        let px_main = DepthPixel {
            color: Color { r: color.r, g: color.g, b: color.b, a: ((color.a * (256 - frac)) / 256) as u8 },
            depth: depth as i64,
        };
        let px_adj = DepthPixel {
            color: Color { r: color.r, g: color.g, b: color.b, a: ((color.a * frac) / 256) as u8 },
            depth: depth as i64,
        };
        let g1 = spec_set_pixel(g, base, xi, px_main);
        lemma_set_pixel_props(g, base, xi, px_main, m, color);
        lemma_set_pixel_props(g1, base + 1, xi, px_adj, m, color);
    } else {
        let yi = y0 + div_trunc(dy * i, steps);
        let xfp = x0 * 256 + div_trunc(dx * 256 * i, steps);
        let base = div_trunc(xfp, 256);
        let frac = xfp - 256 * base;
        let px_main = DepthPixel {
            color: Color { r: color.r, g: color.g, b: color.b, a: ((color.a * (256 - frac)) / 256) as u8 },
            depth: depth as i64,
        };
        let px_adj = DepthPixel {
            color: Color { r: color.r, g: color.g, b: color.b, a: ((color.a * frac) / 256) as u8 },
            depth: depth as i64,
        };
        let g1 = spec_set_pixel(g, yi, base, px_main);
        lemma_set_pixel_props(g, yi, base, px_main, m, color);
        lemma_set_pixel_props(g1, yi, base + 1, px_adj, m, color);
    }
}

/// The first `n` line steps keep the grid's shape, depth bound, and
/// color purity.
proof fn lemma_draw_line_n_props(
    g: Seq<Seq<DepthPixel>>,
    p0: ZBufferedVertex,
    p1: ZBufferedVertex,
    color: Color,
    n: int,
    m: int,
)
    requires
        0 <= m,
        abs(p0.distance as int) <= m,
        abs(p1.distance as int) <= m,
        1 <= spec_line_steps(p0, p1),
        n <= spec_line_steps(p0, p1) + 1,
    ensures
        spec_draw_line_n(g, p0, p1, color, n).len() == g.len(),
        forall|r: int| 0 <= r < g.len() ==> #[trigger] spec_draw_line_n(g, p0, p1, color, n)[r].len() == g[r].len(),
        depths_bounded(g, m) ==> depths_bounded(spec_draw_line_n(g, p0, p1, color, n), m),
        tile_pure(g, color) ==> tile_pure(spec_draw_line_n(g, p0, p1, color, n), color),
    decreases n,
{
    if n > 0 {
        lemma_draw_line_n_props(g, p0, p1, color, n - 1, m);
        lemma_line_step_props(spec_draw_line_n(g, p0, p1, color, n - 1), p0, p1, color, n - 1, m);
    }
}

/// A whole drawn line keeps the grid's shape, depth bound, and color
/// purity.
pub proof fn lemma_draw_line_props(
    g: Seq<Seq<DepthPixel>>,
    p0: ZBufferedVertex,
    p1: ZBufferedVertex,
    color: Color,
    m: int,
)
    requires
        0 <= m,
        abs(p0.distance as int) <= m,
        abs(p1.distance as int) <= m,
    ensures
        spec_draw_line(g, p0, p1, color).len() == g.len(),
        forall|r: int| 0 <= r < g.len() ==> #[trigger] spec_draw_line(g, p0, p1, color)[r].len() == g[r].len(),
        depths_bounded(g, m) ==> depths_bounded(spec_draw_line(g, p0, p1, color), m),
        tile_pure(g, color) ==> tile_pure(spec_draw_line(g, p0, p1, color), color),
{
    let steps = spec_line_steps(p0, p1);
    if steps == 0 {
        let px = DepthPixel { color, depth: p0.distance };
        lemma_set_pixel_props(g, p0.y as int, p0.x as int, px, m, color);
    } else {
        lemma_draw_line_n_props(g, p0, p1, color, steps + 1, m);
    }
}

/// Draws an antialiased line between two depth-tagged vertices: one
/// sample per major-axis pixel, with the opacity split between the two
/// pixels adjacent along the minor axis in proportion to the exact
/// crossing position, and the depth interpolated between the endpoints.
fn draw_line(
    point0: ZBufferedVertex,
    point1: ZBufferedVertex,
    color: Color,
    pixel_buffer: &mut Vec<Vec<DepthPixel>>,
)
    requires
        0 <= point0.x <= TILE_MAX,
        0 <= point0.y <= TILE_MAX,
        0 <= point1.x <= TILE_MAX,
        0 <= point1.y <= TILE_MAX,
        abs(point0.distance as int) <= WORLD_MAX as int,
        abs(point1.distance as int) <= WORLD_MAX as int,
    ensures
        grid_view(*final(pixel_buffer)) == spec_draw_line(
            grid_view(*old(pixel_buffer)),
            point0,
            point1,
            color,
        ),
{
    let dx: i64 = point1.x - point0.x;
    let dy: i64 = point1.y - point0.y;
    let adx: i64 = if dx >= 0 { dx } else { -dx };
    let ady: i64 = if dy >= 0 { dy } else { -dy };
    let steps: i64 = if adx >= ady { adx } else { ady };
    if steps == 0 {
        set_pixel(pixel_buffer, point0.y, point0.x, DepthPixel { color, depth: point0.distance });
        return ;
    }
    let ghost g0 = grid_view(*pixel_buffer);
    let di: i64 = point1.distance - point0.distance;
    let ca: i64 = color.a as i64;
    let mut i: i64 = 0;
    while i <= steps
        invariant
            0 <= point0.x <= TILE_MAX,
            0 <= point0.y <= TILE_MAX,
            0 <= point1.x <= TILE_MAX,
            0 <= point1.y <= TILE_MAX,
            abs(point0.distance as int) <= WORLD_MAX as int,
            abs(point1.distance as int) <= WORLD_MAX as int,
            dx == point1.x - point0.x,
            dy == point1.y - point0.y,
            adx as int == abs(point1.x as int - point0.x as int),
            ady as int == abs(point1.y as int - point0.y as int),
            di == point1.distance - point0.distance,
            ca == color.a as int,
            1 <= steps == spec_line_steps(point0, point1) <= 2 * TILE_MAX,
            0 <= i <= steps + 1,
            grid_view(*pixel_buffer) == spec_draw_line_n(g0, point0, point1, color, i as int),
        decreases steps + 1 - i,
    {
        let ghost g_prev = grid_view(*pixel_buffer);
        proof {
            lemma_lerp_in_hull(point0.distance as int, point1.distance as int, i as int, steps as int);
            lemma_mul_bound(di as int, i as int, 2 * WORLD_MAX as int, 2 * TILE_MAX as int);
        }
        let depth: i64 = point0.distance + (di * i) / steps;
        if adx >= ady {
            proof {
                assert(abs(dx as int * i as int) <= adx * steps) by (nonlinear_arith)
                    requires 0 <= i <= steps, abs(dx as int) == adx, steps >= 0,
                {
                }
                lemma_div_trunc_bound(dx as int * i as int, steps as int, adx as int);
                assert(abs(dy as int * 256 * i as int) <= (ady * 256) * steps) by (nonlinear_arith)
                    requires 0 <= i <= steps, abs(dy as int) == ady, steps >= 0,
                {
                }
                lemma_div_trunc_bound(dy as int * 256 * i as int, steps as int, ady as int * 256);
                lemma_mul_bound(dx as int, i as int, 2 * TILE_MAX as int, 2 * TILE_MAX as int);
                lemma_mul_bound(dy as int * 256, i as int, 512 * TILE_MAX as int, 2 * TILE_MAX as int);
                lemma_mul_bound(ady as int * 256, steps as int, 512 * TILE_MAX as int, 2 * TILE_MAX as int);
                lemma_mul_bound(adx as int, steps as int, 2 * TILE_MAX as int, 2 * TILE_MAX as int);
            }
            proof {
                assert(-0x1000000000 <= dx as int * i as int <= 0x1000000000) by (nonlinear_arith)
                    requires -131072 <= dx as int <= 131072, 0 <= i as int <= 131072,
                {
                }
            }
            let xi: i64 = point0.x + (dx * i) / steps;
            let yfp: i64 = point0.y * 256 + (dy * 256 * i) / steps;
            proof {
                assert(yfp as int == spec_lerp(point0.y as int * 256, point1.y as int * 256, i as int, steps as int));
                lemma_lerp_in_hull(point0.y as int * 256, point1.y as int * 256, i as int, steps as int);
                assert(0 <= yfp);
            }
            let base: i64 = yfp / 256;
            let frac: i64 = yfp - 256 * base;
            proof {
                vstd::arithmetic::div_mod::lemma_fundamental_div_mod(yfp as int, 256);
                vstd::arithmetic::div_mod::lemma_mod_bound(yfp as int, 256);
                assert(0 <= frac < 256);
                assert(0 <= ca * (256 - frac)) by (nonlinear_arith)
                    requires 0 <= ca, frac < 256,
                {
                }
                assert(ca * (256 - frac) <= 255 * 256) by (nonlinear_arith)
                    requires 0 <= ca <= 255, 0 <= frac < 256,
                {
                }
                lemma_div_trunc_bound(ca as int * (256 - frac as int), 256, 255);
                vstd::arithmetic::div_mod::lemma_div_pos_is_pos(ca as int * (256 - frac as int), 256);
                assert(0 <= ca * frac <= 255 * 256) by (nonlinear_arith)
                    requires 0 <= ca <= 255, 0 <= frac < 256,
                {
                }
                lemma_div_trunc_bound(ca as int * frac as int, 256, 255);
                vstd::arithmetic::div_mod::lemma_div_pos_is_pos(ca as int * frac as int, 256);
            }
            let a_main: i64 = ca * (256 - frac) / 256;
            set_pixel(
                pixel_buffer,
                base,
                xi,
                DepthPixel { color: Color { r: color.r, g: color.g, b: color.b, a: a_main as u8 }, depth },
            );
            if frac > 0 {
                let a_adj: i64 = ca * frac / 256;
                set_pixel(
                    pixel_buffer,
                    base + 1,
                    xi,
                    DepthPixel { color: Color { r: color.r, g: color.g, b: color.b, a: a_adj as u8 }, depth },
                );
            }
            proof {
                assert(grid_view(*pixel_buffer) == spec_line_step(g_prev, point0, point1, color, i as int));
            }
        } else {
            proof {
                assert(abs(dy as int * i as int) <= ady * steps) by (nonlinear_arith)
                    requires 0 <= i <= steps, abs(dy as int) == ady, steps >= 0,
                {
                }
                lemma_div_trunc_bound(dy as int * i as int, steps as int, ady as int);
                assert(abs(dx as int * 256 * i as int) <= (adx * 256) * steps) by (nonlinear_arith)
                    requires 0 <= i <= steps, abs(dx as int) == adx, steps >= 0,
                {
                }
                lemma_div_trunc_bound(dx as int * 256 * i as int, steps as int, adx as int * 256);
                lemma_mul_bound(dy as int, i as int, 2 * TILE_MAX as int, 2 * TILE_MAX as int);
                lemma_mul_bound(dx as int * 256, i as int, 512 * TILE_MAX as int, 2 * TILE_MAX as int);
                lemma_mul_bound(adx as int * 256, steps as int, 512 * TILE_MAX as int, 2 * TILE_MAX as int);
                lemma_mul_bound(ady as int, steps as int, 2 * TILE_MAX as int, 2 * TILE_MAX as int);
            }
            proof {
                assert(-0x1000000000 <= dy as int * i as int <= 0x1000000000) by (nonlinear_arith)
                    requires -131072 <= dy as int <= 131072, 0 <= i as int <= 131072,
                {
                }
            }
            let yi: i64 = point0.y + (dy * i) / steps;
            let xfp: i64 = point0.x * 256 + (dx * 256 * i) / steps;
            proof {
                assert(xfp as int == spec_lerp(point0.x as int * 256, point1.x as int * 256, i as int, steps as int));
                lemma_lerp_in_hull(point0.x as int * 256, point1.x as int * 256, i as int, steps as int);
                assert(0 <= xfp);
            }
            let base: i64 = xfp / 256;
            let frac: i64 = xfp - 256 * base;
            proof {
                vstd::arithmetic::div_mod::lemma_fundamental_div_mod(xfp as int, 256);
                vstd::arithmetic::div_mod::lemma_mod_bound(xfp as int, 256);
                assert(0 <= frac < 256);
                assert(0 <= ca * (256 - frac)) by (nonlinear_arith)
                    requires 0 <= ca, frac < 256,
                {
                }
                assert(ca * (256 - frac) <= 255 * 256) by (nonlinear_arith)
                    requires 0 <= ca <= 255, 0 <= frac < 256,
                {
                }
                lemma_div_trunc_bound(ca as int * (256 - frac as int), 256, 255);
                vstd::arithmetic::div_mod::lemma_div_pos_is_pos(ca as int * (256 - frac as int), 256);
                assert(0 <= ca * frac <= 255 * 256) by (nonlinear_arith)
                    requires 0 <= ca <= 255, 0 <= frac < 256,
                {
                }
                lemma_div_trunc_bound(ca as int * frac as int, 256, 255);
                vstd::arithmetic::div_mod::lemma_div_pos_is_pos(ca as int * frac as int, 256);
            }
            let a_main: i64 = ca * (256 - frac) / 256;
            set_pixel(
                pixel_buffer,
                yi,
                base,
                DepthPixel { color: Color { r: color.r, g: color.g, b: color.b, a: a_main as u8 }, depth },
            );
            if frac > 0 {
                let a_adj: i64 = ca * frac / 256;
                set_pixel(
                    pixel_buffer,
                    yi,
                    base + 1,
                    DepthPixel { color: Color { r: color.r, g: color.g, b: color.b, a: a_adj as u8 }, depth },
                );
            }
            proof {
                assert(grid_view(*pixel_buffer) == spec_line_step(g_prev, point0, point1, color, i as int));
            }
        }
        proof {
            assert(spec_draw_line_n(g0, point0, point1, color, i as int + 1) == spec_line_step(
                spec_draw_line_n(g0, point0, point1, color, i as int),
                point0,
                point1,
                color,
                i as int,
            ));
        }
        i = i + 1;
    }
}

/// The untouched sample.
pub open spec fn blank_pixel() -> DepthPixel {
    DepthPixel { color: Color { r: 0u8, g: 0u8, b: 0u8, a: 0u8 }, depth: 0i64 }
}

/// A grid of blank samples, `h` rows of `w` cells.
pub open spec fn spec_blank_grid(w: int, h: int) -> Seq<Seq<DepthPixel>> {
    Seq::new(h as nat, |r: int| Seq::new(w as nat, |c: int| blank_pixel()))
}

/// Allocates a buffer of blank samples.
fn make_buffer(width_cells: usize, height_cells: usize) -> (b: Vec<Vec<DepthPixel>>)
    ensures
        grid_view(b) == spec_blank_grid(width_cells as int, height_cells as int),
{
    let mut b: Vec<Vec<DepthPixel>> = Vec::new();
    let mut r: usize = 0;
    while r < height_cells
        invariant
            r <= height_cells,
            b@.len() == r,
            forall|j: int| 0 <= j < r ==> (#[trigger] b@[j])@ =~= Seq::new(
                width_cells as nat,
                |c: int| blank_pixel(),
            ),
        decreases height_cells - r,
    {
        let mut row: Vec<DepthPixel> = Vec::new();
        let mut c: usize = 0;
        while c < width_cells
            invariant
                c <= width_cells,
                row@.len() == c,
                forall|k: int| 0 <= k < c ==> row@[k] == blank_pixel(),
            decreases width_cells - c,
        {
            row.push(DepthPixel::default());
            c = c + 1;
        }
        proof {
            assert(row@ =~= Seq::new(width_cells as nat, |k: int| blank_pixel()));
        }
        b.push(row);
        r = r + 1;
    }
    proof {
        assert(grid_view(b) =~~= spec_blank_grid(width_cells as int, height_cells as int));
    }
    b
}

/// The column of the strongest edge sample seen scanning right from
/// column `i`, starting from the current strongest column `best`; the
/// scan stops at the first sample weaker than the current strongest.
pub open spec fn spec_scan_left(row: Seq<DepthPixel>, i: int, best: int) -> int
    decreases row.len() - i,
{
    if i < 0 || i >= row.len() {
        best
    } else if row[i].color.a < row[best].color.a {
        best
    } else if row[i].color.a > row[best].color.a {
        spec_scan_left(row, i + 1, i)
    } else {
        spec_scan_left(row, i + 1, best)
    }
}

/// The column of the strongest edge sample seen scanning left from
/// column `i`, starting from the current strongest column `best`; the
/// scan stops at the first sample weaker than the current strongest.
pub open spec fn spec_scan_right(row: Seq<DepthPixel>, i: int, best: int) -> int
    decreases i + 1,
{
    if i < 0 || i >= row.len() {
        best
    } else if row[i].color.a < row[best].color.a {
        best
    } else if row[i].color.a > row[best].color.a {
        spec_scan_right(row, i - 1, i)
    } else {
        spec_scan_right(row, i - 1, best)
    }
}

/// The left scan returns a column inside the row.
proof fn lemma_scan_left_range(row: Seq<DepthPixel>, i: int, best: int)
    requires
        0 <= best < row.len(),
    ensures
        0 <= spec_scan_left(row, i, best) < row.len(),
    decreases row.len() - i,
{
    if !(i < 0 || i >= row.len()) {
        if row[i].color.a > row[best].color.a {
            lemma_scan_left_range(row, i + 1, i);
        } else if row[i].color.a == row[best].color.a {
            lemma_scan_left_range(row, i + 1, best);
        }
    }
}

/// The right scan returns a column inside the row.
proof fn lemma_scan_right_range(row: Seq<DepthPixel>, i: int, best: int)
    requires
        0 <= best < row.len(),
    ensures
        0 <= spec_scan_right(row, i, best) < row.len(),
    decreases i + 1,
{
    if !(i < 0 || i >= row.len()) {
        if row[i].color.a > row[best].color.a {
            lemma_scan_right_range(row, i - 1, i);
        } else if row[i].color.a == row[best].color.a {
            lemma_scan_right_range(row, i - 1, best);
        }
    }
}

/// The fill line of one row: its endpoints sit on the strongest edge
/// samples found from the left and from the right, carry those samples'
/// depths, and lie on the row.
pub open spec fn spec_fill_line(row: int, rseq: Seq<DepthPixel>) -> (ZBufferedVertex, ZBufferedVertex) {
    let l = spec_scan_left(rseq, 0, 0);
    let r = spec_scan_right(rseq, rseq.len() - 1, rseq.len() - 1);
    (
        ZBufferedVertex { x: l as i64, y: row as i64, distance: rseq[l].depth },
        ZBufferedVertex { x: r as i64, y: row as i64, distance: rseq[r].depth },
    )
}

/// One fill line per buffer row.
pub open spec fn spec_fill_lines(g: Seq<Seq<DepthPixel>>) -> Seq<(ZBufferedVertex, ZBufferedVertex)> {
    Seq::new(g.len(), |r: int| spec_fill_line(r, g[r]))
}

/// Finds the two edge samples of one row that bound its fill line.
fn get_fill_line(row: usize, row_pixels: &Vec<DepthPixel>) -> (lr: (ZBufferedVertex, ZBufferedVertex))
    requires
        1 <= row_pixels@.len() <= TILE_MAX as int,
        row <= TILE_MAX as int,
    ensures
        lr == spec_fill_line(row as int, row_pixels@),
        0 <= lr.0.x <= TILE_MAX,
        0 <= lr.1.x <= TILE_MAX,
        0 <= lr.0.y <= TILE_MAX,
        0 <= lr.1.y <= TILE_MAX,
{
    proof {
        lemma_scan_left_range(row_pixels@, 0, 0);
        lemma_scan_right_range(row_pixels@, row_pixels@.len() - 1, row_pixels@.len() - 1);
    }
    let mut left_col: usize = 0;
    let mut i: usize = 0;
    while i < row_pixels.len() && row_pixels[i].color.a >= row_pixels[left_col].color.a
        invariant
            left_col < row_pixels@.len(),
            i <= row_pixels@.len(),
            spec_scan_left(row_pixels@, i as int, left_col as int) == spec_scan_left(
                row_pixels@,
                0,
                0,
            ),
        decreases row_pixels@.len() - i,
    {
        if row_pixels[i].color.a > row_pixels[left_col].color.a {
            left_col = i;
        }
        i = i + 1;
    }
    let mut right_col: usize = row_pixels.len() - 1;
    let mut j: usize = row_pixels.len();
    while j > 0 && row_pixels[j - 1].color.a >= row_pixels[right_col].color.a
        invariant
            right_col < row_pixels@.len(),
            j <= row_pixels@.len(),
            spec_scan_right(row_pixels@, j as int - 1, right_col as int) == spec_scan_right(
                row_pixels@,
                row_pixels@.len() - 1,
                row_pixels@.len() - 1,
            ),
        decreases j,
    {
        if row_pixels[j - 1].color.a > row_pixels[right_col].color.a {
            right_col = j - 1;
        }
        j = j - 1;
    }
    let left = ZBufferedVertex {
        x: left_col as i64,
        y: row as i64,
        distance: row_pixels[left_col].depth,
    };
    let right = ZBufferedVertex {
        x: right_col as i64,
        y: row as i64,
        distance: row_pixels[right_col].depth,
    };
    (left, right)
}

/// Collects the fill line of every buffer row.
fn get_fill_lines(pixel_buffer: &Vec<Vec<DepthPixel>>) -> (lines: Vec<(ZBufferedVertex, ZBufferedVertex)>)
    requires
        pixel_buffer@.len() <= TILE_MAX as int,
        forall|r: int| 0 <= r < pixel_buffer@.len() ==> 1 <= (#[trigger] pixel_buffer@[r])@.len() <= TILE_MAX as int,
        depths_bounded(grid_view(*pixel_buffer), WORLD_MAX as int),
    ensures
        lines@ == spec_fill_lines(grid_view(*pixel_buffer)),
        forall|k: int| 0 <= k < lines@.len() ==> {
            let lr = #[trigger] lines@[k];
            &&& 0 <= lr.0.x <= TILE_MAX
            &&& 0 <= lr.0.y <= TILE_MAX
            &&& 0 <= lr.1.x <= TILE_MAX
            &&& 0 <= lr.1.y <= TILE_MAX
            &&& abs(lr.0.distance as int) <= WORLD_MAX as int
            &&& abs(lr.1.distance as int) <= WORLD_MAX as int
        },
{
    let ghost g = grid_view(*pixel_buffer);
    let mut lines: Vec<(ZBufferedVertex, ZBufferedVertex)> = Vec::new();
    let mut r: usize = 0;
    while r < pixel_buffer.len()
        invariant
            r <= pixel_buffer@.len(),
            pixel_buffer@.len() <= TILE_MAX as int,
            forall|q: int| 0 <= q < pixel_buffer@.len() ==> 1 <= (#[trigger] pixel_buffer@[q])@.len() <= TILE_MAX as int,
            depths_bounded(grid_view(*pixel_buffer), WORLD_MAX as int),
            g == grid_view(*pixel_buffer),
            lines@.len() == r,
            forall|k: int| 0 <= k < r ==> #[trigger] lines@[k] == spec_fill_line(k, g[k]),
            forall|k: int| 0 <= k < r ==> {
                let lr = #[trigger] lines@[k];
                &&& 0 <= lr.0.x <= TILE_MAX
                &&& 0 <= lr.0.y <= TILE_MAX
                &&& 0 <= lr.1.x <= TILE_MAX
                &&& 0 <= lr.1.y <= TILE_MAX
                &&& abs(lr.0.distance as int) <= WORLD_MAX as int
                &&& abs(lr.1.distance as int) <= WORLD_MAX as int
            },
        decreases pixel_buffer@.len() - r,
    {
        proof {
            lemma_scan_left_range(g[r as int], 0, 0);
            lemma_scan_right_range(g[r as int], g[r as int].len() - 1, g[r as int].len() - 1);
        }
        let lr = get_fill_line(r, &pixel_buffer[r]);
        lines.push(lr);
        r = r + 1;
    }
    proof {
        assert(lines@ =~= spec_fill_lines(g));
    }
    lines
}

/// The grid after the first `n` fill lines are drawn over it.
pub open spec fn spec_fill(
    g: Seq<Seq<DepthPixel>>,
    color: Color,
    lines: Seq<(ZBufferedVertex, ZBufferedVertex)>,
    n: int,
) -> Seq<Seq<DepthPixel>>
    decreases n,
{
    if n <= 0 {
        g
    } else {
        spec_draw_line(spec_fill(g, color, lines, n - 1), lines[n - 1].0, lines[n - 1].1, color)
    }
}

/// Drawing the fill lines keeps the grid's shape, depth bound, and color
/// purity.
pub proof fn lemma_fill_props(
    g: Seq<Seq<DepthPixel>>,
    color: Color,
    lines: Seq<(ZBufferedVertex, ZBufferedVertex)>,
    n: int,
    m: int,
)
    requires
        0 <= m,
        forall|k: int| 0 <= k < lines.len() ==> abs((#[trigger] lines[k]).0.distance as int) <= m
            && abs(lines[k].1.distance as int) <= m,
        n <= lines.len(),
    ensures
        spec_fill(g, color, lines, n).len() == g.len(),
        forall|r: int| 0 <= r < g.len() ==> #[trigger] spec_fill(g, color, lines, n)[r].len() == g[r].len(),
        depths_bounded(g, m) ==> depths_bounded(spec_fill(g, color, lines, n), m),
        tile_pure(g, color) ==> tile_pure(spec_fill(g, color, lines, n), color),
    decreases n,
{
    if n > 0 {
        lemma_fill_props(g, color, lines, n - 1, m);
        lemma_draw_line_props(spec_fill(g, color, lines, n - 1), lines[n - 1].0, lines[n - 1].1, color, m);
    }
}

/// Draws every collected fill line, in row order.
fn fill(
    color: Color,
    fill_lines: &Vec<(ZBufferedVertex, ZBufferedVertex)>,
    pixel_buffer: &mut Vec<Vec<DepthPixel>>,
)
    requires
        forall|k: int| 0 <= k < fill_lines@.len() ==> {
            let lr = #[trigger] fill_lines@[k];
            &&& 0 <= lr.0.x <= TILE_MAX
            &&& 0 <= lr.0.y <= TILE_MAX
            &&& 0 <= lr.1.x <= TILE_MAX
            &&& 0 <= lr.1.y <= TILE_MAX
            &&& abs(lr.0.distance as int) <= WORLD_MAX as int
            &&& abs(lr.1.distance as int) <= WORLD_MAX as int
        },
    ensures
        grid_view(*final(pixel_buffer)) == spec_fill(
            grid_view(*old(pixel_buffer)),
            color,
            fill_lines@,
            fill_lines@.len() as int,
        ),
{
    let ghost g0 = grid_view(*pixel_buffer);
    let mut k: usize = 0;
    while k < fill_lines.len()
        invariant
            k <= fill_lines@.len(),
            forall|q: int| 0 <= q < fill_lines@.len() ==> {
                let lr = #[trigger] fill_lines@[q];
                &&& 0 <= lr.0.x <= TILE_MAX
                &&& 0 <= lr.0.y <= TILE_MAX
                &&& 0 <= lr.1.x <= TILE_MAX
                &&& 0 <= lr.1.y <= TILE_MAX
                &&& abs(lr.0.distance as int) <= WORLD_MAX as int
                &&& abs(lr.1.distance as int) <= WORLD_MAX as int
            },
            grid_view(*pixel_buffer) == spec_fill(g0, color, fill_lines@, k as int),
        decreases fill_lines@.len() - k,
    {
        let lr = fill_lines[k];
        draw_line(lr.0, lr.1, color, pixel_buffer);
        k = k + 1;
    }
}

/// The bounding box of three vertices: the top-left corner and the
/// extent along each axis.
pub open spec fn spec_bounding_box(
    v0: ZBufferedVertex,
    v1: ZBufferedVertex,
    v2: ZBufferedVertex,
) -> (int, int, int, int) {
    let minx = vstd::math::min(vstd::math::min(v0.x as int, v1.x as int), v2.x as int);
    let miny = vstd::math::min(vstd::math::min(v0.y as int, v1.y as int), v2.y as int);
    let maxx = vstd::math::max(vstd::math::max(v0.x as int, v1.x as int), v2.x as int);
    let maxy = vstd::math::max(vstd::math::max(v0.y as int, v1.y as int), v2.y as int);
    (minx, miny, maxx - minx, maxy - miny)
}

/// Computes the bounding box of a triangle's vertices: its top-left
/// corner and its width and height.
fn create_bounding_box(zt: &ZBufferedTriangle) -> (bb: (i64, i64, i64, i64))
    requires
        zt.wf(),
    ensures
        (bb.0 as int, bb.1 as int, bb.2 as int, bb.3 as int) == spec_bounding_box(
            zt.vertices@[0],
            zt.vertices@[1],
            zt.vertices@[2],
        ),
        0 <= bb.2 <= 2 * crate::math::CLIP_MAX,
        0 <= bb.3 <= 2 * crate::math::CLIP_MAX,
{
    let v = &zt.vertices;
    let minx: i64 = crate::math::min_i64(crate::math::min_i64(v[0].x, v[1].x), v[2].x);
    let miny: i64 = crate::math::min_i64(crate::math::min_i64(v[0].y, v[1].y), v[2].y);
    let maxx: i64 = crate::math::max_i64(crate::math::max_i64(v[0].x, v[1].x), v[2].x);
    let maxy: i64 = crate::math::max_i64(crate::math::max_i64(v[0].y, v[1].y), v[2].y);
    (minx, miny, maxx - minx, maxy - miny)
}

/// A vertex translated into tile-local coordinates.
pub open spec fn spec_relative_vertex(v: ZBufferedVertex, bx: int, by: int) -> ZBufferedVertex {
    ZBufferedVertex { x: (v.x - bx) as i64, y: (v.y - by) as i64, distance: v.distance }
}

/// The tile a triangle rasterizes to: a blank buffer one cell larger
/// than the bounding box on each axis, the three edges drawn as
/// antialiased lines, and a fill line drawn across every row between the
/// strongest edge samples found from the left and from the right.
pub open spec fn spec_rasterize(
    v0: ZBufferedVertex,
    v1: ZBufferedVertex,
    v2: ZBufferedVertex,
    color: Color,
) -> Seq<Seq<DepthPixel>> {
    let bb = spec_bounding_box(v0, v1, v2);
    let g0 = spec_blank_grid(bb.2 + 1, bb.3 + 1);
    let r0 = spec_relative_vertex(v0, bb.0, bb.1);
    let r1 = spec_relative_vertex(v1, bb.0, bb.1);
    let r2 = spec_relative_vertex(v2, bb.0, bb.1);
    let g1 = spec_draw_line(g0, r0, r1, color);
    let g2 = spec_draw_line(g1, r1, r2, color);
    let g3 = spec_draw_line(g2, r2, r0, color);
    let lines = spec_fill_lines(g3);
    spec_fill(g3, color, lines, lines.len() as int)
}

/// The whole tile a triangle rasterizes to: its grid together with its
/// bitmap-space origin.
pub open spec fn spec_tile(
    v0: ZBufferedVertex,
    v1: ZBufferedVertex,
    v2: ZBufferedVertex,
    color: Color,
) -> Tile {
    let bb = spec_bounding_box(v0, v1, v2);
    Tile { grid: spec_rasterize(v0, v1, v2, color), x: bb.0, y: bb.1 }
}

/// Rasterizes one triangle into a depth-tagged tile.  The tile's origin
/// is the bounding box's top-left corner; its buffer spans the bounding
/// box plus one cell of padding on each axis, so a degenerate triangle
/// still yields at least one cell.  Every sample is either blank or
/// carries the triangle's color.
#[verifier::rlimit(60)]
pub fn rasterize(z_buffered_triangle: &ZBufferedTriangle) -> (zb: ZBuffer)
    requires
        z_buffered_triangle.wf(),
    ensures
        zb@ == spec_tile(
            z_buffered_triangle.vertices@[0],
            z_buffered_triangle.vertices@[1],
            z_buffered_triangle.vertices@[2],
            z_buffered_triangle.color,
        ),
        zb.x as int == spec_bounding_box(
            z_buffered_triangle.vertices@[0],
            z_buffered_triangle.vertices@[1],
            z_buffered_triangle.vertices@[2],
        ).0,
        zb.y as int == spec_bounding_box(
            z_buffered_triangle.vertices@[0],
            z_buffered_triangle.vertices@[1],
            z_buffered_triangle.vertices@[2],
        ).1,
        zb.buffer@.len() == spec_bounding_box(
            z_buffered_triangle.vertices@[0],
            z_buffered_triangle.vertices@[1],
            z_buffered_triangle.vertices@[2],
        ).3 + 1,
        forall|r: int| 0 <= r < zb.buffer@.len() ==> (#[trigger] zb.buffer@[r])@.len()
            == spec_bounding_box(
            z_buffered_triangle.vertices@[0],
            z_buffered_triangle.vertices@[1],
            z_buffered_triangle.vertices@[2],
        ).2 + 1,
        zb.buffer@.len() >= 1,
        tile_pure(grid_view(zb.buffer), z_buffered_triangle.color),
        depths_bounded(grid_view(zb.buffer), WORLD_MAX as int),
        zb.wf(),
{
    let (x, y, width, height) = create_bounding_box(z_buffered_triangle);
    let width_cells: usize = (width + 1) as usize;
    let height_cells: usize = (height + 1) as usize;
    let mut pixel_buffer: Vec<Vec<DepthPixel>> = make_buffer(width_cells, height_cells);
    let v = &z_buffered_triangle.vertices;
    let color = z_buffered_triangle.color;
    let r0 = ZBufferedVertex { x: v[0].x - x, y: v[0].y - y, distance: v[0].distance };
    let r1 = ZBufferedVertex { x: v[1].x - x, y: v[1].y - y, distance: v[1].distance };
    let r2 = ZBufferedVertex { x: v[2].x - x, y: v[2].y - y, distance: v[2].distance };
    let ghost g0 = grid_view(pixel_buffer);
    proof {
        assert(depths_bounded(g0, WORLD_MAX as int));
        assert(tile_pure(g0, color));
        lemma_draw_line_props(g0, r0, r1, color, WORLD_MAX as int);
    }
    draw_line(r0, r1, color, &mut pixel_buffer);
    let ghost g1 = grid_view(pixel_buffer);
    proof {
        lemma_draw_line_props(g1, r1, r2, color, WORLD_MAX as int);
    }
    draw_line(r1, r2, color, &mut pixel_buffer);
    let ghost g2 = grid_view(pixel_buffer);
    proof {
        lemma_draw_line_props(g2, r2, r0, color, WORLD_MAX as int);
    }
    draw_line(r2, r0, color, &mut pixel_buffer);
    let ghost g3 = grid_view(pixel_buffer);
    proof {
        assert(g3.len() == height_cells as int);
        assert forall|r: int| 0 <= r < g3.len() implies #[trigger] g3[r].len() == width_cells as int by {
            assert(g2[r].len() == width_cells as int);
        }
        assert forall|r: int| 0 <= r < pixel_buffer@.len() implies 1 <= (#[trigger] pixel_buffer@[r])@.len() <= TILE_MAX as int by {
            assert(pixel_buffer@[r]@ == g3[r]);
            assert(g3[r].len() == width_cells as int);
        }
        assert(depths_bounded(g3, WORLD_MAX as int));
    }
    let fill_lines = get_fill_lines(&pixel_buffer);
    proof {
        lemma_fill_props(g3, color, fill_lines@, fill_lines@.len() as int, WORLD_MAX as int);
    }
    fill(color, &fill_lines, &mut pixel_buffer);
    proof {
        let gf = grid_view(pixel_buffer);
        assert(gf.len() == height_cells as int);
        assert forall|r: int| 0 <= r < pixel_buffer@.len() implies (#[trigger] pixel_buffer@[r])@.len()
            == spec_bounding_box(
            z_buffered_triangle.vertices@[0],
            z_buffered_triangle.vertices@[1],
            z_buffered_triangle.vertices@[2],
        ).2 + 1 by {
            assert(pixel_buffer@[r]@ == gf[r]);
            assert(gf[r].len() == g3[r].len());
            assert(g3[r].len() == width_cells as int);
        }
    }
    ZBuffer { buffer: pixel_buffer, x, y }
}

} // verus!
