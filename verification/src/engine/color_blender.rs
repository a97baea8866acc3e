//! Standalone color blending: a foreground weighted by its own opacity
//! added to a background weighted by the background's transparency.

use vstd::prelude::*;
use crate::math::spec_clamp;
use crate::scene::model::color::Color;

verus! {

/// One blended channel: `(fg * fg_a + bg * (255 - bg_a)) / 255`, capped
/// at 255.  Unlike the compositor's over-blend, both operands' own
/// opacities weigh in, so the sum can exceed a byte and saturates.
pub open spec fn spec_blend_color_channel(bg: int, bg_a: int, fg: int, fg_a: int) -> int {
    spec_clamp((fg * fg_a + bg * (255 - bg_a)) / 255, 0, 255)
}

/// The blend of two colors, channel by channel; the result is opaque.
pub open spec fn spec_blend_color(background: Color, foreground: Color) -> Color {
    Color {
        r: spec_blend_color_channel(
            background.r as int,
            background.a as int,
            foreground.r as int,
            foreground.a as int,
        ) as u8,
        g: spec_blend_color_channel(
            background.g as int,
            background.a as int,
            foreground.g as int,
            foreground.a as int,
        ) as u8,
        b: spec_blend_color_channel(
            background.b as int,
            background.a as int,
            foreground.b as int,
            foreground.a as int,
        ) as u8,
        a: 255u8,
    }
}

/// Blends one channel pair, saturating at an opaque byte.
fn blend_color_channel(bg: u8, bg_a: u8, fg: u8, fg_a: u8) -> (r: u8)
    ensures
        r as int == spec_blend_color_channel(bg as int, bg_a as int, fg as int, fg_a as int),
{
    let b: i64 = bg as i64;
    let ba: i64 = bg_a as i64;
    let f: i64 = fg as i64;
    let fa: i64 = fg_a as i64;
    proof {
        assert(0 <= (f as int) * (fa as int) <= 255 * 255) by (nonlinear_arith)
            requires 0 <= f as int <= 255, 0 <= fa as int <= 255,
        {
        }
        assert(0 <= (b as int) * (255 - ba as int) <= 255 * 255) by (nonlinear_arith)
            requires 0 <= b as int <= 255, 0 <= ba as int <= 255,
        {
        }
    }
    let num: i64 = f * fa + b * (255 - ba);
    proof {
        vstd::arithmetic::div_mod::lemma_div_pos_is_pos(num as int, 255);
        assert((255int * 511) / 255 == 511) by {
            vstd::arithmetic::div_mod::lemma_div_multiples_vanish(511, 255);
        }
        vstd::arithmetic::div_mod::lemma_div_is_ordered(num as int, 255int * 511, 255);
    }
    let q: i64 = num / 255;
    if q > 255 {
        255
    } else {
        q as u8
    }
}

/// Blends a foreground over a background: each channel takes the
/// foreground weighted by the foreground's opacity plus the background
/// weighted by the background's transparency, saturating at full
/// intensity; the result is opaque.
pub fn blend_color(background: Color, foreground: Color) -> (c: Color)
    ensures
        c == spec_blend_color(background, foreground),
{
    Color {
        r: blend_color_channel(background.r, background.a, foreground.r, foreground.a),
        g: blend_color_channel(background.g, background.a, foreground.g, foreground.a),
        b: blend_color_channel(background.b, background.a, foreground.b, foreground.a),
        a: 255,
    }
}

} // verus!
