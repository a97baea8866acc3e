//! Fixed-point trigonometry on whole degrees.
//!
//! Sine and cosine return integers scaled by [`TRIG_ONE`]; the sine of a
//! degree in `[0, 180]` is the rational approximation
//! `4*d*(180-d) / (40500 - d*(180-d))`, which is exact at 0, 30, 90, 150
//! and 180 degrees and within two percent everywhere else.

use vstd::prelude::*;
use crate::math::spec_wrap360;
use crate::math::wrap360;

verus! {

/// The fixed-point scale: this value stands for 1.0.
pub const TRIG_ONE: i64 = 65536;

/// Sine of a degree in `[0, 180]`, scaled by [`TRIG_ONE`].
pub open spec fn spec_sin_lobe(d: int) -> int {
    (4 * d * (180 - d) * (TRIG_ONE as int)) / (40500 - d * (180 - d))
}

/// Sine of a degree already reduced into `[0, 360)`, scaled by [`TRIG_ONE`].
pub open spec fn spec_sin_wrapped(d: int) -> int {
    if d <= 180 {
        spec_sin_lobe(d)
    } else {
        -spec_sin_lobe(d - 180)
    }
}

/// Sine of any degree, scaled by [`TRIG_ONE`].
pub open spec fn spec_sin(d: int) -> int {
    spec_sin_wrapped(spec_wrap360(d))
}

/// Cosine of any degree, scaled by [`TRIG_ONE`].
pub open spec fn spec_cos(d: int) -> int {
    spec_sin(d + 90)
}

/// The product `d * (180 - d)` stays within `[0, 8100]` on the sine lobe.
proof fn lemma_lobe_product_range(d: int)
    requires
        0 <= d <= 180,
    ensures
        0 <= d * (180 - d) <= 8100,
{
    assert(0 <= d * (180 - d) <= 8100) by (nonlinear_arith)
        requires 0 <= d <= 180,
    {
    }
}

/// The lobe approximation stays within `[0, TRIG_ONE]`.
pub proof fn lemma_sin_lobe_range(d: int)
    requires
        0 <= d <= 180,
    ensures
        0 <= spec_sin_lobe(d) <= TRIG_ONE as int,
{
    lemma_lobe_product_range(d);
    let q = d * (180 - d);
    let num = 4 * q * (TRIG_ONE as int);
    let den = 40500 - q;
    assert(num == 4 * d * (180 - d) * (TRIG_ONE as int)) by (nonlinear_arith)
        requires q == d * (180 - d), num == 4 * q * (TRIG_ONE as int),
    {
    }
    assert(32400 <= den <= 40500);
    assert(0 <= num);
    assert(num <= (TRIG_ONE as int) * den) by (nonlinear_arith)
        requires 0 <= q <= 8100, num == 4 * q * (TRIG_ONE as int), den == 40500 - q,
    {
    }
    vstd::arithmetic::div_mod::lemma_div_pos_is_pos(num, den);
    assert(num / den <= TRIG_ONE as int) by {
        vstd::arithmetic::div_mod::lemma_div_multiples_vanish(TRIG_ONE as int, den);
        vstd::arithmetic::div_mod::lemma_div_is_ordered(num, (TRIG_ONE as int) * den, den);
    }
}

/// Sine of any degree is within `[-TRIG_ONE, TRIG_ONE]`.
pub proof fn lemma_sin_range(d: int)
    ensures
        -(TRIG_ONE as int) <= spec_sin(d) <= TRIG_ONE as int,
{
    let w = spec_wrap360(d);
    assert(0 <= w < 360) by {
        vstd::arithmetic::div_mod::lemma_mod_bound(d, 360);
    }
    if w <= 180 {
        lemma_sin_lobe_range(w);
    } else {
        lemma_sin_lobe_range(w - 180);
    }
}

/// The sine of zero degrees is exactly zero.
pub proof fn lemma_sin_zero()
    ensures
        spec_sin(0) == 0,
{
    vstd::arithmetic::div_mod::lemma_small_mod(0, 360);
    assert(4 * 0 * (180 - 0) * (TRIG_ONE as int) == 0);
    vstd::arithmetic::div_mod::lemma_basic_div(0, 40500);
}

/// The sine of ninety degrees is exactly one, in fixed point.
pub proof fn lemma_sin_ninety()
    ensures
        spec_sin(90) == TRIG_ONE as int,
{
    vstd::arithmetic::div_mod::lemma_small_mod(90, 360);
    assert(spec_wrap360(90) == 90);
    assert(90 * (180 - 90) == 8100);
    assert(4 * 90 * (180 - 90) * (TRIG_ONE as int) == 32400 * (TRIG_ONE as int));
    vstd::arithmetic::div_mod::lemma_div_multiples_vanish(TRIG_ONE as int, 32400);
    assert(spec_sin_lobe(90) == TRIG_ONE as int);
}

/// The cosine of zero degrees is exactly one, in fixed point.
pub proof fn lemma_cos_zero()
    ensures
        spec_cos(0) == TRIG_ONE as int,
{
    lemma_sin_ninety();
}

/// Sine of a whole degree, scaled by [`TRIG_ONE`].
pub fn sin_deg(d: i64) -> (r: i64)
    ensures
        r == spec_sin(d as int),
        -TRIG_ONE <= r <= TRIG_ONE,
{
    let w: i64 = wrap360(d);
    proof {
        lemma_sin_range(d as int);
    }
    if w <= 180 {
        sin_lobe(w)
    } else {
        let v: i64 = sin_lobe(w - 180);
        -v
    }
}

/// Cosine of a whole degree, scaled by [`TRIG_ONE`].
pub fn cos_deg(d: i64) -> (r: i64)
    ensures
        r == spec_cos(d as int),
        -TRIG_ONE <= r <= TRIG_ONE,
{
    let w: i64 = wrap360(d);
    proof {
        lemma_sin_range(d as int + 90);
        assert(spec_wrap360(w as int + 90) == spec_wrap360(d as int + 90)) by {
            vstd::arithmetic::div_mod::lemma_mod_twice(d as int, 360);
            vstd::arithmetic::div_mod::lemma_add_mod_noop(d as int, 90, 360);
            vstd::arithmetic::div_mod::lemma_add_mod_noop(d as int % 360, 90, 360);
        }
        assert(spec_sin(w as int + 90) == spec_cos(d as int));
    }
    sin_deg(w + 90)
}

/// The lobe approximation on `[0, 180]`.
fn sin_lobe(d: i64) -> (r: i64)
    requires
        0 <= d <= 180,
    ensures
        r == spec_sin_lobe(d as int),
        0 <= r <= TRIG_ONE,
{
    proof {
        lemma_lobe_product_range(d as int);
        lemma_sin_lobe_range(d as int);
    }
    let q: i64 = d * (180 - d);
    let num: i64 = 4 * q * TRIG_ONE;
    let den: i64 = 40500 - q;
    proof {
        assert(num as int == 4 * (d as int) * (180 - d as int) * (TRIG_ONE as int)) by (nonlinear_arith)
            requires q == (d as int) * (180 - d as int), num == 4 * (q as int) * (TRIG_ONE as int),
        {
        }
    }
    num / den
}

} // verus!
