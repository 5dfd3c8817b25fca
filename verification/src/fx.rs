//! Signed 16.16 fixed-point scalars.
//!
//! An `i64` value `v` stands for the real number `v / 65536`.  Products are
//! formed exactly in `i64` and rescaled by a division that truncates toward
//! zero, so every operation here has an exact integer specification.

use vstd::arithmetic::div_mod::lemma_div_is_ordered;
use vstd::arithmetic::div_mod::lemma_div_nonincreasing;
use vstd::arithmetic::div_mod::lemma_div_pos_is_pos;
use vstd::prelude::*;

verus! {

/// One unit (the real number 1) in 16.16 fixed point.
pub const FX_ONE: i64 = 65536;

/// Largest operand magnitude accepted by `fx_mul`; two operands of this size
/// multiply to 2^62, which still fits in `i64`.
pub const FX_IN_MAX: i64 = 2147483648;

/// Division truncating toward zero, the rounding used by every rescaling
/// in this crate.
pub open spec fn trunc_div(a: int, d: int) -> int {
    if a >= 0 {
        a / d
    } else {
        -((-a) / d)
    }
}

/// The exact value computed by `fx_mul`: the full product, rescaled back to
/// 16.16 fixed point.
pub open spec fn fx_mul_val(a: int, b: int) -> int {
    trunc_div(a * b, FX_ONE as int)
}

/// Clamping into a closed interval.
pub open spec fn clamp_val(x: int, lo: int, hi: int) -> int {
    if x < lo {
        lo
    } else if x > hi {
        hi
    } else {
        x
    }
}

/// Addition saturating at the `i64` range.
pub open spec fn sat_add_val(a: int, b: int) -> int {
    clamp_val(a + b, i64::MIN as int, i64::MAX as int)
}

/// A truncating quotient keeps the magnitude bound of its dividend.
pub proof fn lemma_trunc_div_bound(p: int, m: int, d: int)
    requires
        -m <= p <= m,
        0 <= m,
        0 < d,
    ensures
        -(m / d) <= trunc_div(p, d) <= m / d,
{
    lemma_div_pos_is_pos(m, d);
    if p >= 0 {
        lemma_div_is_ordered(p, m, d);
        lemma_div_pos_is_pos(p, d);
    } else {
        lemma_div_is_ordered(-p, m, d);
        lemma_div_pos_is_pos(-p, d);
    }
}

/// Bound propagation for fixed-point products: operand bounds `x` and `y`
/// bound the rescaled product by `x * y / 65536`.
pub proof fn lemma_fx_mul_val_bound(a: int, b: int, x: int, y: int)
    requires
        -x <= a <= x,
        -y <= b <= y,
        0 <= x,
        0 <= y,
    ensures
        -(x * y / (FX_ONE as int)) <= fx_mul_val(a, b) <= x * y / (FX_ONE as int),
{
    assert(-(x * y) <= a * b <= x * y) by (nonlinear_arith)
        requires
            -x <= a <= x,
            -y <= b <= y,
            0 <= x,
            0 <= y,
    ;
    lemma_trunc_div_bound(a * b, x * y, FX_ONE as int);
}

/// Divides `p` by `d`, truncating toward zero.
pub fn trunc_div_i64(p: i64, d: i64) -> (r: i64)
    requires
        0 < d,
        i64::MIN < p,
    ensures
        r == trunc_div(p as int, d as int),
{
    if p >= 0 {
        let q: u64 = (p as u64) / (d as u64);
        proof {
            lemma_div_nonincreasing(p as int, d as int);
            lemma_div_pos_is_pos(p as int, d as int);
        }
        q as i64
    } else {
        let m: i64 = -p;
        let q: u64 = (m as u64) / (d as u64);
        proof {
            lemma_div_nonincreasing(m as int, d as int);
            lemma_div_pos_is_pos(m as int, d as int);
        }
        -(q as i64)
    }
}

/// Computes `a * b / d` with an exact product and truncation toward zero.
pub fn mul_div_fx(a: i64, b: i64, d: i64) -> (r: i64)
    requires
        0 < d,
        -0x7fff_ffff_ffff_ffff <= a * b <= 0x7fff_ffff_ffff_ffff,
    ensures
        r == trunc_div(a * b, d as int),
{
    let p: i64 = a * b;
    trunc_div_i64(p, d)
}

/// Fixed-point multiplication: exact product, rescaled by 65536 with
/// truncation toward zero.
pub fn fx_mul(a: i64, b: i64) -> (r: i64)
    requires
        -FX_IN_MAX <= a <= FX_IN_MAX,
        -FX_IN_MAX <= b <= FX_IN_MAX,
    ensures
        r == fx_mul_val(a as int, b as int),
        -(FX_IN_MAX * FX_IN_MAX / (FX_ONE as int)) <= r <= FX_IN_MAX * FX_IN_MAX / (FX_ONE as int),
{
    proof {
        assert(-(FX_IN_MAX * FX_IN_MAX) <= a * b <= FX_IN_MAX * FX_IN_MAX) by (nonlinear_arith)
            requires
                -FX_IN_MAX <= a <= FX_IN_MAX,
                -FX_IN_MAX <= b <= FX_IN_MAX,
        ;
        lemma_fx_mul_val_bound(a as int, b as int, FX_IN_MAX as int, FX_IN_MAX as int);
    }
    mul_div_fx(a, b, FX_ONE)
}

/// Clamps `x` into `[lo, hi]`.
pub fn clamp_i64(x: i64, lo: i64, hi: i64) -> (r: i64)
    requires
        lo <= hi,
    ensures
        r == clamp_val(x as int, lo as int, hi as int),
{
    if x < lo {
        lo
    } else if x > hi {
        hi
    } else {
        x
    }
}

/// The integer square root: the unique `r >= 0` with
/// `r * r <= n < (r + 1) * (r + 1)`.
pub open spec fn sqrt_val(n: int) -> int
    recommends
        n >= 0,
{
    choose|r: int| #![trigger r * r] r >= 0 && r * r <= n < (r + 1) * (r + 1)
}

/// A witness pins the integer square root down: it is unique.
pub proof fn lemma_sqrt_val_is(n: int, r: int)
    requires
        0 <= r,
        r * r <= n,
        n < (r + 1) * (r + 1),
    ensures
        sqrt_val(n) == r,
{
    assert(r >= 0 && r * r <= n < (r + 1) * (r + 1));
    let c = choose|q: int| #![trigger q * q] q >= 0 && q * q <= n < (q + 1) * (q + 1);
    assert(c >= 0 && c * c <= n < (c + 1) * (c + 1));
    if c < r {
        assert((c + 1) * (c + 1) <= r * r) by (nonlinear_arith)
            requires
                0 <= c,
                c < r,
        ;
        assert(false);
    } else if r < c {
        assert((r + 1) * (r + 1) <= c * c) by (nonlinear_arith)
            requires
                0 <= r,
                r < c,
        ;
        assert(false);
    }
}

/// The integer square root, by bisection.
pub fn isqrt_u64(n: u64) -> (r: u64)
    ensures
        r * r <= n < (r + 1) * (r + 1),
        r == sqrt_val(n as int),
{
    let mut lo: u64 = 0;
    let mut hi: u64 = 4294967296;
    proof {
        assert(n < hi * hi) by (nonlinear_arith)
            requires
                hi == 4294967296u64,
                n <= 0xffff_ffff_ffff_ffffu64,
        ;
    }
    while lo + 1 < hi
        invariant
            lo < hi <= 4294967296,
            lo * lo <= n,
            n < hi * hi,
        decreases hi - lo,
    {
        let mid: u64 = lo + (hi - lo) / 2;
        proof {
            assert(mid * mid <= 0xffff_fffe_0000_0001u64) by (nonlinear_arith)
                requires
                    mid <= 4294967295u64,
            ;
        }
        if mid * mid <= n {
            lo = mid;
        } else {
            hi = mid;
        }
    }
    proof {
        lemma_sqrt_val_is(n as int, lo as int);
    }
    lo
}

/// Addition saturating at the `i64` range.
pub fn sat_add_i64(a: i64, b: i64) -> (r: i64)
    ensures
        r == sat_add_val(a as int, b as int),
{
    if b >= 0 {
        if a > i64::MAX - b {
            i64::MAX
        } else {
            a + b
        }
    } else {
        if a < i64::MIN - b {
            i64::MIN
        } else {
            a + b
        }
    }
}

} // verus!
