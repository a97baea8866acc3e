//! Small integer helpers shared by the whole pipeline: truncating division
//! as Rust's `/` computes it, wrapping of angles into `[0, 360)`, clamping,
//! and an integer square root.

use vstd::prelude::*;
use vstd::math::abs;

verus! {

/// Largest magnitude allowed for a world coordinate, a displacement
/// component, or a focal length.  Keeps every product in the pipeline
/// comfortably inside a 64-bit integer.
pub const WORLD_MAX: i64 = 524288;

/// Largest magnitude of a camera-plane normal component: a unit normal
/// scaled by `TRIG_ONE` can at most double with each of three rotations.
pub const NORMAL_MAX: i64 = 524288;

/// Largest magnitude of a plane's constant coefficient.
pub const D_COEFF_MAX: i64 = 3 * NORMAL_MAX * WORLD_MAX;

/// Largest magnitude of a signed point-to-plane distance.
pub const DIST_MAX: i64 = 2 * D_COEFF_MAX;

/// Half-size of the clip window: bitmap coordinates handed to the
/// rasterizer are clamped into `[-CLIP_MAX, CLIP_MAX]`.
pub const CLIP_MAX: i64 = 16384;

/// Largest display width or height the pipeline accepts.
pub const DISPLAY_MAX: usize = 16384;

/// Truncating (round-toward-zero) division, the semantics of Rust's `/`
/// on signed integers; `b` is expected to be positive.
pub open spec fn div_trunc(a: int, b: int) -> int {
    if a >= 0 {
        a / b
    } else {
        -((-a) / b)
    }
}

/// A value forced into `[lo, hi]`.
pub open spec fn spec_clamp(v: int, lo: int, hi: int) -> int {
    if v < lo {
        lo
    } else if v > hi {
        hi
    } else {
        v
    }
}

/// Forces a value into `[lo, hi]`.
pub fn clamp_i64(v: i64, lo: i64, hi: i64) -> (r: i64)
    requires
        lo <= hi,
    ensures
        r == spec_clamp(v as int, lo as int, hi as int),
{
    if v < lo {
        lo
    } else if v > hi {
        hi
    } else {
        v
    }
}

/// The smaller of two values.
pub fn min_i64(a: i64, b: i64) -> (r: i64)
    ensures
        r == if a <= b { a as int } else { b as int },
{
    if a <= b {
        a
    } else {
        b
    }
}

/// The larger of two values.
pub fn max_i64(a: i64, b: i64) -> (r: i64)
    ensures
        r == if a >= b { a as int } else { b as int },
{
    if a >= b {
        a
    } else {
        b
    }
}

/// A product is bounded by the product of the factors' bounds.
pub proof fn lemma_mul_bound(a: int, b: int, ma: int, mb: int)
    requires
        abs(a) <= ma,
        abs(b) <= mb,
    ensures
        abs(a * b) <= ma * mb,
{
    assert(abs(a * b) <= ma * mb) by (nonlinear_arith)
        requires abs(a) <= ma, abs(b) <= mb,
    {
    }
}

/// Truncating division shrinks magnitudes: `|a / b| <= m` whenever
/// `|a| <= m * b`.
pub proof fn lemma_div_trunc_bound(a: int, b: int, m: int)
    requires
        b >= 1,
        0 <= m,
        abs(a) <= m * b,
    ensures
        abs(div_trunc(a, b)) <= m,
{
    assert(m * b == b * m) by (nonlinear_arith);
    vstd::arithmetic::div_mod::lemma_div_multiples_vanish(m, b);
    assert((b * m) / b == m);
    if a >= 0 {
        vstd::arithmetic::div_mod::lemma_div_pos_is_pos(a, b);
        vstd::arithmetic::div_mod::lemma_div_is_ordered(a, b * m, b);
    } else {
        vstd::arithmetic::div_mod::lemma_div_pos_is_pos(-a, b);
        vstd::arithmetic::div_mod::lemma_div_is_ordered(-a, b * m, b);
    }
}

/// Truncating division by a positive divisor is exact on multiples.
pub proof fn lemma_div_trunc_exact(q: int, b: int)
    requires
        b >= 1,
    ensures
        div_trunc(q * b, b) == q,
{
    assert(q * b == b * q) by (nonlinear_arith);
    if q >= 0 {
        vstd::arithmetic::div_mod::lemma_div_multiples_vanish(q, b);
        assert((b * q) / b == q);
    } else {
        vstd::arithmetic::div_mod::lemma_div_multiples_vanish(-q, b);
        assert((b * -q) / b == -q);
        assert(-(b * q) == b * -q) by (nonlinear_arith);
    }
}

/// Truncating division with a divisor of either sign, written over
/// [`div_trunc`] on the divisor's magnitude.
pub open spec fn div_signed(a: int, b: int) -> int {
    if b >= 0 {
        div_trunc(a, b)
    } else {
        -div_trunc(a, -b)
    }
}

/// Division never grows a magnitude: `|a / b| <= |a|` for `b != 0`.
pub proof fn lemma_div_signed_shrinks(a: int, b: int)
    requires
        b != 0,
    ensures
        abs(div_signed(a, b)) <= abs(a),
{
    let m = if b >= 0 { b } else { -b };
    assert(abs(a) <= abs(a) * m) by (nonlinear_arith)
        requires m >= 1,
    {
    }
    lemma_div_trunc_bound(a, m, abs(a) as int);
}

/// The integer square root: the largest `r` with `r * r <= n`.
pub open spec fn spec_isqrt(n: int) -> int
    decreases n,
{
    if n <= 0 {
        0
    } else {
        let r = spec_isqrt(n - 1);
        if (r + 1) * (r + 1) <= n {
            r + 1
        } else {
            r
        }
    }
}

/// The integer square root is sound: `0 <= r`, `r * r <= n < (r + 1) * (r + 1)`.
pub proof fn lemma_isqrt_bounds(n: int)
    requires
        0 <= n,
    ensures
        0 <= spec_isqrt(n),
        spec_isqrt(n) * spec_isqrt(n) <= n,
        n < (spec_isqrt(n) + 1) * (spec_isqrt(n) + 1),
    decreases n,
{
    if n > 0 {
        lemma_isqrt_bounds(n - 1);
        let r = spec_isqrt(n - 1);
        assert(r * r <= n - 1);
        assert(n - 1 < (r + 1) * (r + 1));
        if (r + 1) * (r + 1) <= n {
            assert(spec_isqrt(n) == r + 1);
            assert(n == (r + 1) * (r + 1));
            assert(n < (r + 2) * (r + 2)) by (nonlinear_arith)
                requires n == (r + 1) * (r + 1), r >= 0,
            {
            }
        } else {
            assert(spec_isqrt(n) == r);
        }
    }
}

/// Any nonnegative `r` with `r * r <= n < (r + 1) * (r + 1)` is the
/// integer square root.
pub proof fn lemma_isqrt_unique(n: int, r: int)
    requires
        0 <= r,
        r * r <= n,
        n < (r + 1) * (r + 1),
    ensures
        r == spec_isqrt(n),
{
    let s = spec_isqrt(n);
    lemma_isqrt_bounds(n);
    if r < s {
        assert((r + 1) * (r + 1) <= s * s) by (nonlinear_arith)
            requires 0 <= r, r + 1 <= s,
        {
        }
    }
    if s < r {
        assert((s + 1) * (s + 1) <= r * r) by (nonlinear_arith)
            requires 0 <= s, s + 1 <= r,
        {
        }
    }
}

/// Computes the integer square root by binary search.
pub fn isqrt(n: u64) -> (r: u64)
    requires
        n < 0x4000000000000000,
    ensures
        r == spec_isqrt(n as int),
        r * r <= n,
        n < (r + 1) * (r + 1),
        r <= 0x80000000,
{
    let mut lo: u64 = 0;
    let mut hi: u64 = 0x80000000;
    proof {
        assert((0x80000000 as int) * (0x80000000 as int) == 0x4000000000000000) by (nonlinear_arith);
    }
    while lo + 1 < hi
        invariant
            lo < hi <= 0x80000000,
            (lo as int) * (lo as int) <= n as int,
            (n as int) < (hi as int) * (hi as int),
        decreases hi - lo,
    {
        let mid: u64 = lo + (hi - lo) / 2;
        proof {
            assert((mid as int) * (mid as int) <= 0x4000000000000000) by (nonlinear_arith)
                requires 0 <= mid <= 0x80000000int,
            {
            }
        }
        if mid * mid <= n {
            lo = mid;
        } else {
            hi = mid;
        }
    }
    proof {
        lemma_isqrt_unique(n as int, lo as int);
    }
    lo
}

/// An angle in degrees reduced into `[0, 360)`.
pub open spec fn spec_wrap360(d: int) -> int {
    d % 360
}

/// Reduces an angle in degrees into `[0, 360)`.
pub fn wrap360(d: i64) -> (r: i64)
    ensures
        r == spec_wrap360(d as int),
        0 <= r < 360,
{
    let t: i64 = d % 360;
    let r: i64 = (t + 360) % 360;
    proof {
        let di = d as int;
        if di >= 0 {
            assert(t == di % 360);
            vstd::arithmetic::div_mod::lemma_mod_bound(di, 360);
            assert((360 * 1 + t) % 360 == t % 360) by {
                vstd::arithmetic::div_mod::lemma_mod_multiples_vanish(1, t as int, 360);
            }
            vstd::arithmetic::div_mod::lemma_small_mod(t as nat, 360);
        } else {
            let u = (-di) % 360;
            assert(t == -u);
            vstd::arithmetic::div_mod::lemma_mod_bound(-di, 360);
            let q = (-di) / 360;
            assert(-di == 360 * q + u) by {
                vstd::arithmetic::div_mod::lemma_fundamental_div_mod(-di, 360);
            }
            if u == 0 {
                assert(di == 360 * (-q) + 0);
                assert((360 * (-q) + 0) % 360 == 0int % 360) by {
                    vstd::arithmetic::div_mod::lemma_mod_multiples_vanish(-q, 0, 360);
                }
                vstd::arithmetic::div_mod::lemma_small_mod(0, 360);
            } else {
                assert(di == 360 * (-q - 1) + (360 - u));
                assert((360 * (-q - 1) + (360 - u)) % 360 == (360 - u) % 360) by {
                    vstd::arithmetic::div_mod::lemma_mod_multiples_vanish(-q - 1, 360 - u, 360);
                }
                vstd::arithmetic::div_mod::lemma_small_mod((360 - u) as nat, 360);
            }
        }
    }
    r
}

} // verus!
