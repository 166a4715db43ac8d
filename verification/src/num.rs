//! Saturating integer arithmetic for lengths and fixed-point factors.

use vstd::prelude::*;

verus! {

/// The fixed-point value of one: a factor `f` stands for `f / ONE`.
pub const ONE: i32 = 65536;

/// Layout units in one logical point.
pub const UNITS_PER_POINT: i32 = 64;

/// The largest length; it stands for "unbounded".
pub const INF: i32 = 2147483647;

/// The smallest coordinate.
pub const NEG_INF: i32 = -2147483648;

/// Coordinates and lengths up to this size, either way, add and subtract
/// without saturating.
pub const COORD_LIMIT: i32 = 0x2000_0000;

/// Whether `v` is small enough that sums and differences of two such values
/// do not saturate.
pub open spec fn in_bounds(v: int) -> bool {
    -(COORD_LIMIT as int) <= v <= COORD_LIMIT as int
}

/// `v` brought into the range of `i32`.
pub open spec fn sat(v: int) -> int {
    if v < -2147483648 {
        -2147483648
    } else if v > 2147483647 {
        2147483647
    } else {
        v
    }
}

/// The smaller of two integers.
pub open spec fn min_int(a: int, b: int) -> int {
    if a <= b {
        a
    } else {
        b
    }
}

/// The larger of two integers.
pub open spec fn max_int(a: int, b: int) -> int {
    if a >= b {
        a
    } else {
        b
    }
}

/// `x` brought into `[lo, hi]`; where `lo > hi` the lower bound wins.
pub open spec fn clamp_int(x: int, lo: int, hi: int) -> int {
    if x < lo {
        lo
    } else if x > hi {
        hi
    } else {
        x
    }
}

/// `v` scaled by the factor `f`, rounded down.
pub open spec fn scale_int(v: int, f: int) -> int {
    sat((v * f) / (ONE as int))
}

/// The point between `a` and `b` at the factor `t`, rounded down.
pub open spec fn lerp_int(a: int, b: int, t: int) -> int {
    sat(a + ((b - a) * t) / (ONE as int))
}

/// The multiple of `grid` nearest to `v`, ties going up; `v` itself where
/// `grid` is not above one.
pub open spec fn round_int(v: int, grid: int) -> int {
    if grid <= 1 {
        v
    } else {
        sat(((v + grid / 2) / grid) * grid)
    }
}

/// Narrows a wide intermediate result to `i32`, saturating.
pub fn sat_wide(v: i128) -> (r: i32)
    ensures
        r as int == sat(v as int),
{
    if v < -2147483648 {
        -2147483648
    } else if v > 2147483647 {
        2147483647
    } else {
        v as i32
    }
}

/// Saturating sum.
pub fn sat_add(a: i32, b: i32) -> (r: i32)
    ensures
        r as int == sat(a + b),
{
    sat_wide(a as i128 + b as i128)
}

/// Saturating difference.
pub fn sat_sub(a: i32, b: i32) -> (r: i32)
    ensures
        r as int == sat(a - b),
{
    sat_wide(a as i128 - b as i128)
}

/// The smaller of `a` and `b`.
pub fn at_most(a: i32, b: i32) -> (r: i32)
    ensures
        r as int == min_int(a as int, b as int),
{
    if a <= b {
        a
    } else {
        b
    }
}

/// The larger of `a` and `b`.
pub fn at_least(a: i32, b: i32) -> (r: i32)
    ensures
        r as int == max_int(a as int, b as int),
{
    if a >= b {
        a
    } else {
        b
    }
}

/// `x` brought into `[lo, hi]`.
pub fn clamp(x: i32, lo: i32, hi: i32) -> (r: i32)
    ensures
        r as int == clamp_int(x as int, lo as int, hi as int),
{
    if x < lo {
        lo
    } else if x > hi {
        hi
    } else {
        x
    }
}

/// Division rounding toward negative infinity.
pub(crate) fn div_floor(a: i128, d: i128) -> (q: i128)
    requires
        d > 0,
        -0x1_0000_0000_0000_0000_0000 <= a <= 0x1_0000_0000_0000_0000_0000,
    ensures
        q as int == (a as int) / (d as int),
{
    if a >= 0 {
        a / d
    } else {
        let n: i128 = -a;
        let up: i128 = n / d;
        let rest: i128 = n % d;
        proof {
            assert((a as int) / (d as int) == if rest == 0 { -(up as int) } else { -(up as int) - 1 })
                by (nonlinear_arith)
                requires
                    n == -a,
                    d > 0,
                    n > 0,
                    up == (n as int) / (d as int),
                    rest == (n as int) % (d as int),
            ;
        }
        if rest == 0 {
            -up
        } else {
            -up - 1
        }
    }
}

/// The exact product of two values of up to 34 bits.
fn wide_mul(a: i64, b: i64) -> (p: i128)
    requires
        -0x2_0000_0000 <= a <= 0x2_0000_0000,
        -0x2_0000_0000 <= b <= 0x2_0000_0000,
    ensures
        p as int == (a as int) * (b as int),
        -0x4_0000_0000_0000_0000 <= p <= 0x4_0000_0000_0000_0000,
{
    proof {
        assert(-0x4_0000_0000_0000_0000 <= (a as int) * (b as int) <= 0x4_0000_0000_0000_0000)
            by (nonlinear_arith)
            requires
                -0x2_0000_0000 <= a as int <= 0x2_0000_0000,
                -0x2_0000_0000 <= b as int <= 0x2_0000_0000,
        ;
    }
    a as i128 * b as i128
}

/// `v` scaled by the fixed-point factor `f`.
pub fn scale(v: i32, f: i32) -> (r: i32)
    ensures
        r as int == scale_int(v as int, f as int),
{
    sat_wide(div_floor(wide_mul(v as i64, f as i64), ONE as i128))
}

/// The point between `a` and `b` at the fixed-point factor `t`.
pub fn lerp(a: i32, b: i32, t: i32) -> (r: i32)
    ensures
        r as int == lerp_int(a as int, b as int, t as int),
{
    let span: i64 = b as i64 - a as i64;
    let step: i128 = div_floor(wide_mul(span, t as i64), ONE as i128);
    sat_wide(a as i128 + step)
}

/// Half of `v`, rounded down.
pub fn half_floor(v: i32) -> (r: i32)
    ensures
        r as int == (v as int) / 2,
{
    let w: i64 = v as i64;
    if w >= 0 {
        (w / 2) as i32
    } else {
        (-((-w + 1) / 2)) as i32
    }
}

/// `v` rounded to the nearest multiple of `grid`.
pub fn round_to_grid(v: i32, grid: i32) -> (r: i32)
    ensures
        r as int == round_int(v as int, grid as int),
{
    if grid <= 1 {
        v
    } else {
        let g: i128 = grid as i128;
        let cell: i128 = div_floor(v as i128 + g / 2, g);
        proof {
            assert(-0x1_0000_0000 <= cell <= 0x1_0000_0000) by (nonlinear_arith)
                requires
                    cell == (v as int + (g as int) / 2) / (g as int),
                    2 <= g <= 0x7fff_ffff,
                    -0x8000_0000 <= v as int <= 0x7fff_ffff,
            ;
            assert(-0x1_0000_0000_0000_0000 <= (cell as int) * (g as int) <= 0x1_0000_0000_0000_0000)
                by (nonlinear_arith)
                requires
                    -0x1_0000_0000 <= cell <= 0x1_0000_0000,
                    2 <= g <= 0x7fff_ffff,
            ;
        }
        sat_wide(cell * g)
    }
}

} // verus!
