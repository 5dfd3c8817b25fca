//! Three-component vectors in 16.16 fixed point.

use crate::fx::fx_mul;
use crate::fx::fx_mul_val;
use crate::fx::lemma_fx_mul_val_bound;
use crate::fx::lemma_trunc_div_bound;
use crate::fx::trunc_div;
use crate::fx::FX_ONE;
use vstd::prelude::*;

verus! {

/// A vector whose components are 16.16 fixed-point scalars.
#[derive(Clone, Copy, Debug, PartialEq, Eq, Structural)]
pub struct Vec3Fx {
    pub x: i64,
    pub y: i64,
    pub z: i64,
}

/// Largest component magnitude accepted by `cross` and by the first operand
/// of `dot`.
pub const VEC_IN_MAX: i64 = 8388608;

/// Largest component magnitude accepted by the second operand of `dot`.
pub const DOT_B_MAX: i64 = 134217728;

impl Vec3Fx {
    /// All components lie within `[-m, m]`.
    pub open spec fn bounded(self, m: int) -> bool {
        &&& -m <= self.x <= m
        &&& -m <= self.y <= m
        &&& -m <= self.z <= m
    }
}

/// The exact (unscaled) cross product: each component is a difference of two
/// full products, so the familiar algebraic identities hold of it with no
/// rounding at all.
pub open spec fn cross_num(a: Vec3Fx, b: Vec3Fx) -> (int, int, int) {
    (
        a.y * b.z - a.z * b.y,
        a.z * b.x - a.x * b.z,
        a.x * b.y - a.y * b.x,
    )
}

/// The exact (unscaled) dot product of an integer triple with a vector.
pub open spec fn dot_num(c: (int, int, int), v: Vec3Fx) -> int {
    c.0 * v.x + c.1 * v.y + c.2 * v.z
}

/// The value computed by `cross`: the exact cross product, each component
/// rescaled back to 16.16 fixed point.
pub open spec fn cross_val(a: Vec3Fx, b: Vec3Fx) -> Vec3Fx {
    Vec3Fx {
        x: trunc_div(cross_num(a, b).0, FX_ONE as int) as i64,
        y: trunc_div(cross_num(a, b).1, FX_ONE as int) as i64,
        z: trunc_div(cross_num(a, b).2, FX_ONE as int) as i64,
    }
}

/// The value computed by `dot`: the sum of the three rescaled products.
pub open spec fn dot_val(a: Vec3Fx, b: Vec3Fx) -> int {
    fx_mul_val(a.x as int, b.x as int) + fx_mul_val(a.y as int, b.y as int) + fx_mul_val(
        a.z as int,
        b.z as int,
    )
}

/// The squared Euclidean length, as an exact integer (scale 2^32).
pub open spec fn len_sq_num(v: Vec3Fx) -> int {
    v.x * v.x + v.y * v.y + v.z * v.z
}

/// The zero vector test.
pub open spec fn is_zero(v: Vec3Fx) -> bool {
    v.x == 0 && v.y == 0 && v.z == 0
}

/// The value computed by `normalize`: each component is scaled by
/// `65536 / length`, truncating toward zero; the zero vector is returned
/// unchanged.
pub open spec fn normalize_val(v: Vec3Fx) -> Vec3Fx {
    if is_zero(v) {
        v
    } else {
        let len = crate::fx::sqrt_val(len_sq_num(v));
        Vec3Fx {
            x: trunc_div(v.x * FX_ONE, len) as i64,
            y: trunc_div(v.y * FX_ONE, len) as i64,
            z: trunc_div(v.z * FX_ONE, len) as i64,
        }
    }
}

/// Normalizes a vector to (fixed-point) unit length; the zero vector is
/// returned unchanged.  The result's components always lie in `[-1, 1]`.
pub fn normalize(v: &Vec3Fx) -> (r: Vec3Fx)
    requires
        v.bounded(VEC_IN_MAX as int),
    ensures
        r == normalize_val(*v),
        r.bounded(FX_ONE as int),
{
    if v.x == 0 && v.y == 0 && v.z == 0 {
        return *v;
    }
    proof {
        lemma_prod_in_range(v.x, v.x);
        lemma_prod_in_range(v.y, v.y);
        lemma_prod_in_range(v.z, v.z);
        assert(v.x * v.x >= 0) by (nonlinear_arith);
        assert(v.y * v.y >= 0) by (nonlinear_arith);
        assert(v.z * v.z >= 0) by (nonlinear_arith);
        assert(v.x != 0 ==> v.x * v.x >= 1) by (nonlinear_arith);
        assert(v.y != 0 ==> v.y * v.y >= 1) by (nonlinear_arith);
        assert(v.z != 0 ==> v.z * v.z >= 1) by (nonlinear_arith);
    }
    let n: i64 = v.x * v.x + v.y * v.y + v.z * v.z;
    let len_u: u64 = crate::fx::isqrt_u64(n as u64);
    proof {
        lemma_component_le_sqrt(v.x as int, n as int, len_u as int);
        lemma_component_le_sqrt(v.y as int, n as int, len_u as int);
        lemma_component_le_sqrt(v.z as int, n as int, len_u as int);
    }
    let len: i64 = len_u as i64;
    let lx: i64 = crate::fx::trunc_div_i64(v.x * FX_ONE, len);
    let ly: i64 = crate::fx::trunc_div_i64(v.y * FX_ONE, len);
    let lz: i64 = crate::fx::trunc_div_i64(v.z * FX_ONE, len);
    proof {
        lemma_scaled_quotient_unit(v.x as int, len as int);
        lemma_scaled_quotient_unit(v.y as int, len as int);
        lemma_scaled_quotient_unit(v.z as int, len as int);
    }
    Vec3Fx { x: lx, y: ly, z: lz }
}

/// Each component's square is at most the squared length, so each
/// component's magnitude is at most the integer square root, and the root
/// of a bounded sum is itself bounded.
proof fn lemma_component_le_sqrt(c: int, n: int, len: int)
    requires
        c * c <= n,
        0 <= len,
        len * len <= n,
        n < (len + 1) * (len + 1),
        n <= 0x3_0000_0000_0000,
    ensures
        -len <= c <= len,
        len <= 0x1000_0000,
        1 <= len || n == 0,
{
    assert(-len <= c <= len) by (nonlinear_arith)
        requires
            c * c <= n,
            n < (len + 1) * (len + 1),
            0 <= len,
    ;
    assert(len <= 0x1000_0000) by (nonlinear_arith)
        requires
            len * len <= n,
            n <= 0x3_0000_0000_0000,
            0 <= len,
    ;
    assert(len == 0 ==> n == 0) by (nonlinear_arith)
        requires
            0 <= len,
            len * len <= n,
            n < (len + 1) * (len + 1),
    ;
}

/// A component no larger than the length divides out to at most one unit.
proof fn lemma_scaled_quotient_unit(c: int, len: int)
    requires
        1 <= len,
        -len <= c <= len,
    ensures
        -(FX_ONE as int) <= trunc_div(c * (FX_ONE as int), len) <= FX_ONE as int,
{
    assert(-(len * (FX_ONE as int)) <= c * (FX_ONE as int) <= len * (FX_ONE as int))
        by (nonlinear_arith)
        requires
            -len <= c <= len,
            0 <= len,
    ;
    lemma_trunc_div_bound(c * (FX_ONE as int), len * (FX_ONE as int), len);
    assert(len * (FX_ONE as int) == (FX_ONE as int) * len);
    vstd::arithmetic::div_mod::lemma_div_by_multiple(FX_ONE as int, len);
}

/// Componentwise bounds on both factors bound the fixed-point dot product
/// by three rescaled products.
pub proof fn lemma_dot_val_bounded(a: Vec3Fx, b: Vec3Fx, x: int, y: int)
    requires
        a.bounded(x),
        b.bounded(y),
        0 <= x,
        0 <= y,
    ensures
        -(3 * (x * y / (FX_ONE as int))) <= dot_val(a, b) <= 3 * (x * y / (FX_ONE as int)),
{
    lemma_fx_mul_val_bound(a.x as int, b.x as int, x, y);
    lemma_fx_mul_val_bound(a.y as int, b.y as int, x, y);
    lemma_fx_mul_val_bound(a.z as int, b.z as int, x, y);
}

/// A cross product is orthogonal to both of its factors: its exact dot
/// product with either one is zero, for every pair of vectors.  In
/// particular the camera's derived right vector, the cross product of its
/// front and up vectors, is orthogonal to both.
pub proof fn lemma_cross_orthogonal(f: Vec3Fx, u: Vec3Fx)
    ensures
        dot_num(cross_num(f, u), f) == 0,
        dot_num(cross_num(f, u), u) == 0,
{
    assert((f.y * u.z - f.z * u.y) * f.x + (f.z * u.x - f.x * u.z) * f.y + (f.x * u.y - f.y
        * u.x) * f.z == 0) by (nonlinear_arith);
    assert((f.y * u.z - f.z * u.y) * u.x + (f.z * u.x - f.x * u.z) * u.y + (f.x * u.y - f.y
        * u.x) * u.z == 0) by (nonlinear_arith);
}

/// Componentwise bounds on both factors bound the fixed-point cross product.
pub proof fn lemma_cross_val_bounded(a: Vec3Fx, b: Vec3Fx, m: int)
    requires
        0 <= m <= VEC_IN_MAX,
        a.bounded(m),
        b.bounded(m),
    ensures
        cross_val(a, b).bounded(2 * m * m / (FX_ONE as int)),
{
    assert(-(2 * m * m) <= a.y * b.z - a.z * b.y <= 2 * m * m) by (nonlinear_arith)
        requires
            -m <= a.y <= m,
            -m <= a.z <= m,
            -m <= b.y <= m,
            -m <= b.z <= m,
            0 <= m,
    ;
    assert(-(2 * m * m) <= a.z * b.x - a.x * b.z <= 2 * m * m) by (nonlinear_arith)
        requires
            -m <= a.z <= m,
            -m <= a.x <= m,
            -m <= b.z <= m,
            -m <= b.x <= m,
            0 <= m,
    ;
    assert(-(2 * m * m) <= a.x * b.y - a.y * b.x <= 2 * m * m) by (nonlinear_arith)
        requires
            -m <= a.x <= m,
            -m <= a.y <= m,
            -m <= b.x <= m,
            -m <= b.y <= m,
            0 <= m,
    ;
    lemma_trunc_div_bound(cross_num(a, b).0, 2 * m * m, FX_ONE as int);
    lemma_trunc_div_bound(cross_num(a, b).1, 2 * m * m, FX_ONE as int);
    lemma_trunc_div_bound(cross_num(a, b).2, 2 * m * m, FX_ONE as int);
    assert(2 * m * m / (FX_ONE as int) <= 2 * m * m) by {
        vstd::arithmetic::div_mod::lemma_div_nonincreasing(2 * m * m, FX_ONE as int);
        assert(0 <= 2 * m * m) by (nonlinear_arith)
            requires
                0 <= m,
        ;
    }
}

/// Products of components bounded by `VEC_IN_MAX` stay well within `i64`.
proof fn lemma_prod_in_range(p: i64, q: i64)
    requires
        -VEC_IN_MAX <= p <= VEC_IN_MAX,
        -VEC_IN_MAX <= q <= VEC_IN_MAX,
    ensures
        -0x4000_0000_0000 <= p * q <= 0x4000_0000_0000,
{
    assert(-(VEC_IN_MAX * VEC_IN_MAX) <= p * q <= VEC_IN_MAX * VEC_IN_MAX) by (nonlinear_arith)
        requires
            -VEC_IN_MAX <= p <= VEC_IN_MAX,
            -VEC_IN_MAX <= q <= VEC_IN_MAX,
    ;
    assert(VEC_IN_MAX * VEC_IN_MAX == 0x4000_0000_0000);
}

/// The cross product in fixed point: each component is the exact integer
/// cross product, truncated toward zero once.
pub fn cross(a: &Vec3Fx, b: &Vec3Fx) -> (r: Vec3Fx)
    requires
        a.bounded(VEC_IN_MAX as int),
        b.bounded(VEC_IN_MAX as int),
    ensures
        r == cross_val(*a, *b),
{
    proof {
        lemma_prod_in_range(a.y, b.z);
        lemma_prod_in_range(a.z, b.y);
        lemma_prod_in_range(a.z, b.x);
        lemma_prod_in_range(a.x, b.z);
        lemma_prod_in_range(a.x, b.y);
        lemma_prod_in_range(a.y, b.x);
    }
    let px: i64 = a.y * b.z - a.z * b.y;
    let py: i64 = a.z * b.x - a.x * b.z;
    let pz: i64 = a.x * b.y - a.y * b.x;
    let x: i64 = crate::fx::trunc_div_i64(px, FX_ONE);
    let y: i64 = crate::fx::trunc_div_i64(py, FX_ONE);
    let z: i64 = crate::fx::trunc_div_i64(pz, FX_ONE);
    Vec3Fx { x, y, z }
}

/// The dot product in fixed point: the sum of the three rescaled products.
pub fn dot(a: &Vec3Fx, b: &Vec3Fx) -> (r: i64)
    requires
        a.bounded(VEC_IN_MAX as int),
        b.bounded(DOT_B_MAX as int),
    ensures
        r == dot_val(*a, *b),
{
    proof {
        lemma_fx_mul_val_bound(a.x as int, b.x as int, VEC_IN_MAX as int, DOT_B_MAX as int);
        lemma_fx_mul_val_bound(a.y as int, b.y as int, VEC_IN_MAX as int, DOT_B_MAX as int);
        lemma_fx_mul_val_bound(a.z as int, b.z as int, VEC_IN_MAX as int, DOT_B_MAX as int);
        assert(-0x4000_0000_0000_0000 <= a.x * b.x <= 0x4000_0000_0000_0000) by (nonlinear_arith)
            requires
                -VEC_IN_MAX <= a.x <= VEC_IN_MAX,
                -DOT_B_MAX <= b.x <= DOT_B_MAX,
                VEC_IN_MAX == 8388608int,
                DOT_B_MAX == 134217728int,
        ;
        assert(-0x4000_0000_0000_0000 <= a.y * b.y <= 0x4000_0000_0000_0000) by (nonlinear_arith)
            requires
                -VEC_IN_MAX <= a.y <= VEC_IN_MAX,
                -DOT_B_MAX <= b.y <= DOT_B_MAX,
                VEC_IN_MAX == 8388608int,
                DOT_B_MAX == 134217728int,
        ;
        assert(-0x4000_0000_0000_0000 <= a.z * b.z <= 0x4000_0000_0000_0000) by (nonlinear_arith)
            requires
                -VEC_IN_MAX <= a.z <= VEC_IN_MAX,
                -DOT_B_MAX <= b.z <= DOT_B_MAX,
                VEC_IN_MAX == 8388608int,
                DOT_B_MAX == 134217728int,
        ;
    }
    let tx: i64 = crate::fx::mul_div_fx(a.x, b.x, FX_ONE);
    let ty: i64 = crate::fx::mul_div_fx(a.y, b.y, FX_ONE);
    let tz: i64 = crate::fx::mul_div_fx(a.z, b.z, FX_ONE);
    tx + ty + tz
}

} // verus!
