//! Four-component vectors and 4x4 matrices in 16.16 fixed point,
//! column-major as uploaded to the GPU: the right-handed look-at view
//! transform, the right-handed perspective projection with depth range
//! `[0, 1]`, and the matrix product that combines them.

use crate::fx::fx_mul;
use crate::fx::fx_mul_val;
use crate::fx::lemma_trunc_div_bound;
use crate::fx::trunc_div;
use crate::fx::trunc_div_i64;
use crate::fx::FX_ONE;
use crate::vec3::cross;
use crate::vec3::cross_val;
use crate::vec3::dot;
use crate::vec3::dot_val;
use crate::vec3::lemma_cross_val_bounded;
use crate::vec3::lemma_dot_val_bounded;
use crate::vec3::normalize;
use crate::vec3::normalize_val;
use crate::vec3::Vec3Fx;
use crate::vec3::DOT_B_MAX;
use vstd::prelude::*;

verus! {

/// One column of a 4x4 matrix.
#[derive(Clone, Copy, Debug, PartialEq, Eq, Structural)]
pub struct Vec4Fx {
    pub x: i64,
    pub y: i64,
    pub z: i64,
    pub w: i64,
}

/// A column-major 4x4 matrix of 16.16 fixed-point entries.
#[derive(Clone, Copy, Debug, PartialEq, Eq, Structural)]
pub struct Mat4Fx {
    pub x_axis: Vec4Fx,
    pub y_axis: Vec4Fx,
    pub z_axis: Vec4Fx,
    pub w_axis: Vec4Fx,
}

impl Vec4Fx {
    /// All components lie within `[-m, m]`.
    pub open spec fn bounded(self, m: int) -> bool {
        &&& -m <= self.x <= m
        &&& -m <= self.y <= m
        &&& -m <= self.z <= m
        &&& -m <= self.w <= m
    }
}

impl Mat4Fx {
    /// All entries lie within `[-m, m]`.
    pub open spec fn bounded(self, m: int) -> bool {
        &&& self.x_axis.bounded(m)
        &&& self.y_axis.bounded(m)
        &&& self.z_axis.bounded(m)
        &&& self.w_axis.bounded(m)
    }
}

/// The identity transform: ones down the diagonal.
pub open spec fn identity_val() -> Mat4Fx {
    Mat4Fx {
        x_axis: Vec4Fx { x: 65536, y: 0, z: 0, w: 0 },
        y_axis: Vec4Fx { x: 0, y: 65536, z: 0, w: 0 },
        z_axis: Vec4Fx { x: 0, y: 0, z: 65536, w: 0 },
        w_axis: Vec4Fx { x: 0, y: 0, z: 0, w: 65536 },
    }
}

/// The identity transform.
pub fn identity() -> (r: Mat4Fx)
    ensures
        r == identity_val(),
        r.bounded(MAT_IN_MAX as int),
{
    Mat4Fx {
        x_axis: Vec4Fx { x: 65536, y: 0, z: 0, w: 0 },
        y_axis: Vec4Fx { x: 0, y: 65536, z: 0, w: 0 },
        z_axis: Vec4Fx { x: 0, y: 0, z: 65536, w: 0 },
        w_axis: Vec4Fx { x: 0, y: 0, z: 0, w: 65536 },
    }
}

/// Every matrix entry produced by `look_at_rh` and `perspective_rh` stays
/// within this bound, which `mat_mul` accepts.
pub const MAT_IN_MAX: i64 = 1073741824;

/// Largest cotangent of the half field-of-view accepted by the projection.
pub const COT_MAX: i64 = 1048576;

/// The accepted aspect-ratio range (16.16 scale): 1/16 to 64.
pub const ASPECT_MIN: i64 = 4096;

pub const ASPECT_MAX: i64 = 4194304;

/// Largest near-plane distance accepted (16.16 scale; 16 units).
pub const ZNEAR_MAX: i64 = 1048576;

/// Largest far-plane distance accepted (16.16 scale; 256 units).
pub const ZFAR_MAX: i64 = 16777216;

/// Componentwise negation.
pub open spec fn neg_val(v: Vec3Fx) -> Vec3Fx {
    Vec3Fx { x: (-v.x) as i64, y: (-v.y) as i64, z: (-v.z) as i64 }
}

/// The right-handed look-at view matrix from `eye` toward `eye + front`
/// with the given up vector: the basis `f = normalize(-front)`,
/// `s = normalize(up x f)`, `u = f x s` fills the rotation rows, and the
/// fourth column carries the eye projected onto that basis.
pub open spec fn look_at_rh_val(eye: Vec3Fx, front: Vec3Fx, up: Vec3Fx) -> Mat4Fx {
    let f = normalize_val(neg_val(front));
    let s = normalize_val(cross_val(up, f));
    let u = cross_val(f, s);
    Mat4Fx {
        x_axis: Vec4Fx { x: s.x, y: u.x, z: f.x, w: 0 },
        y_axis: Vec4Fx { x: s.y, y: u.y, z: f.y, w: 0 },
        z_axis: Vec4Fx { x: s.z, y: u.z, z: f.z, w: 0 },
        w_axis: Vec4Fx {
            x: (-dot_val(s, eye)) as i64,
            y: (-dot_val(u, eye)) as i64,
            z: (-dot_val(f, eye)) as i64,
            w: 65536,
        },
    }
}

/// The right-handed look-at view matrix.
pub fn look_at_rh(eye: &Vec3Fx, front: &Vec3Fx, up: &Vec3Fx) -> (r: Mat4Fx)
    requires
        eye.bounded(DOT_B_MAX as int),
        front.bounded(2 * FX_ONE as int),
        up.bounded(FX_ONE as int),
    ensures
        r == look_at_rh_val(*eye, *front, *up),
        r.bounded(MAT_IN_MAX as int),
{
    let dir = Vec3Fx { x: -front.x, y: -front.y, z: -front.z };
    let f = normalize(&dir);
    let sc = cross(up, &f);
    proof {
        lemma_cross_val_bounded(*up, f, FX_ONE as int);
    }
    let s = normalize(&sc);
    let u = cross(&f, &s);
    proof {
        lemma_cross_val_bounded(f, s, FX_ONE as int);
    }
    let tx: i64 = dot(&s, eye);
    let ty: i64 = dot(&u, eye);
    let tz: i64 = dot(&f, eye);
    proof {
        lemma_dot_val_bounded(s, *eye, FX_ONE as int, DOT_B_MAX as int);
        lemma_dot_val_bounded(u, *eye, 2 * FX_ONE as int, DOT_B_MAX as int);
        lemma_dot_val_bounded(f, *eye, FX_ONE as int, DOT_B_MAX as int);
    }
    Mat4Fx {
        x_axis: Vec4Fx { x: s.x, y: u.x, z: f.x, w: 0 },
        y_axis: Vec4Fx { x: s.y, y: u.y, z: f.y, w: 0 },
        z_axis: Vec4Fx { x: s.z, y: u.z, z: f.z, w: 0 },
        w_axis: Vec4Fx { x: -tx, y: -ty, z: -tz, w: FX_ONE },
    }
}

/// The right-handed perspective projection with depth range `[0, 1]`,
/// from the cotangent of the half field-of-view (host-supplied, since
/// trigonometric evaluation is outside this crate), the aspect ratio and
/// the near and far planes.
pub open spec fn perspective_rh_val(cot_half_fovy: int, aspect: int, znear: int, zfar: int) -> Mat4Fx {
    let w = trunc_div(cot_half_fovy * FX_ONE, aspect);
    let rr = -trunc_div(zfar * FX_ONE, zfar - znear);
    Mat4Fx {
        x_axis: Vec4Fx { x: w as i64, y: 0, z: 0, w: 0 },
        y_axis: Vec4Fx { x: 0, y: cot_half_fovy as i64, z: 0, w: 0 },
        z_axis: Vec4Fx { x: 0, y: 0, z: rr as i64, w: -65536i64 },
        w_axis: Vec4Fx { x: 0, y: 0, z: fx_mul_val(rr, znear) as i64, w: 0 },
    }
}

/// The right-handed perspective projection matrix.
pub fn perspective_rh(cot_half_fovy: i64, aspect: i64, znear: i64, zfar: i64) -> (r: Mat4Fx)
    requires
        0 < cot_half_fovy <= COT_MAX,
        ASPECT_MIN <= aspect <= ASPECT_MAX,
        0 < znear <= ZNEAR_MAX,
        znear + FX_ONE <= zfar <= ZFAR_MAX,
    ensures
        r == perspective_rh_val(cot_half_fovy as int, aspect as int, znear as int, zfar as int),
        r.bounded(MAT_IN_MAX as int),
{
    let wn: i64 = cot_half_fovy * FX_ONE;
    let w: i64 = trunc_div_i64(wn, aspect);
    proof {
        lemma_trunc_div_bound(wn as int, 68719476736, aspect as int);
        vstd::arithmetic::div_mod::lemma_div_is_ordered_by_denominator(
            68719476736,
            ASPECT_MIN as int,
            aspect as int,
        );
    }
    let rn: i64 = zfar * FX_ONE;
    let rq: i64 = trunc_div_i64(rn, zfar - znear);
    proof {
        lemma_trunc_div_bound(rn as int, 0x100_0000_0000, (zfar - znear) as int);
        vstd::arithmetic::div_mod::lemma_div_is_ordered_by_denominator(
            0x100_0000_0000,
            FX_ONE as int,
            (zfar - znear) as int,
        );
    }
    let rr: i64 = -rq;
    let m: i64 = fx_mul(rr, znear);
    proof {
        crate::fx::lemma_fx_mul_val_bound(rr as int, znear as int, ZFAR_MAX as int, ZNEAR_MAX as int);
    }
    Mat4Fx {
        x_axis: Vec4Fx { x: w, y: 0, z: 0, w: 0 },
        y_axis: Vec4Fx { x: 0, y: cot_half_fovy, z: 0, w: 0 },
        z_axis: Vec4Fx { x: 0, y: 0, z: rr, w: -FX_ONE },
        w_axis: Vec4Fx { x: 0, y: 0, z: m, w: 0 },
    }
}

/// One column of a matrix product: the left matrix applied to a column of
/// the right one, each product rescaled once.
pub open spec fn mul_col_val(a: Mat4Fx, c: Vec4Fx) -> Vec4Fx {
    Vec4Fx {
        x: (fx_mul_val(a.x_axis.x as int, c.x as int) + fx_mul_val(a.y_axis.x as int, c.y as int)
            + fx_mul_val(a.z_axis.x as int, c.z as int) + fx_mul_val(
            a.w_axis.x as int,
            c.w as int,
        )) as i64,
        y: (fx_mul_val(a.x_axis.y as int, c.x as int) + fx_mul_val(a.y_axis.y as int, c.y as int)
            + fx_mul_val(a.z_axis.y as int, c.z as int) + fx_mul_val(
            a.w_axis.y as int,
            c.w as int,
        )) as i64,
        z: (fx_mul_val(a.x_axis.z as int, c.x as int) + fx_mul_val(a.y_axis.z as int, c.y as int)
            + fx_mul_val(a.z_axis.z as int, c.z as int) + fx_mul_val(
            a.w_axis.z as int,
            c.w as int,
        )) as i64,
        w: (fx_mul_val(a.x_axis.w as int, c.x as int) + fx_mul_val(a.y_axis.w as int, c.y as int)
            + fx_mul_val(a.z_axis.w as int, c.z as int) + fx_mul_val(
            a.w_axis.w as int,
            c.w as int,
        )) as i64,
    }
}

/// The matrix product, column by column.
pub open spec fn mat_mul_val(a: Mat4Fx, b: Mat4Fx) -> Mat4Fx {
    Mat4Fx {
        x_axis: mul_col_val(a, b.x_axis),
        y_axis: mul_col_val(a, b.y_axis),
        z_axis: mul_col_val(a, b.z_axis),
        w_axis: mul_col_val(a, b.w_axis),
    }
}

/// The left matrix applied to one column.
fn mul_col(a: &Mat4Fx, c: &Vec4Fx) -> (r: Vec4Fx)
    requires
        a.bounded(MAT_IN_MAX as int),
        c.bounded(MAT_IN_MAX as int),
    ensures
        r == mul_col_val(*a, *c),
{
    Vec4Fx {
        x: fx_mul(a.x_axis.x, c.x) + fx_mul(a.y_axis.x, c.y) + fx_mul(a.z_axis.x, c.z) + fx_mul(
            a.w_axis.x,
            c.w,
        ),
        y: fx_mul(a.x_axis.y, c.x) + fx_mul(a.y_axis.y, c.y) + fx_mul(a.z_axis.y, c.z) + fx_mul(
            a.w_axis.y,
            c.w,
        ),
        z: fx_mul(a.x_axis.z, c.x) + fx_mul(a.y_axis.z, c.y) + fx_mul(a.z_axis.z, c.z) + fx_mul(
            a.w_axis.z,
            c.w,
        ),
        w: fx_mul(a.x_axis.w, c.x) + fx_mul(a.y_axis.w, c.y) + fx_mul(a.z_axis.w, c.z) + fx_mul(
            a.w_axis.w,
            c.w,
        ),
    }
}

/// The matrix product of two bounded matrices.
pub fn mat_mul(a: &Mat4Fx, b: &Mat4Fx) -> (r: Mat4Fx)
    requires
        a.bounded(MAT_IN_MAX as int),
        b.bounded(MAT_IN_MAX as int),
    ensures
        r == mat_mul_val(*a, *b),
{
    Mat4Fx {
        x_axis: mul_col(a, &b.x_axis),
        y_axis: mul_col(a, &b.y_axis),
        z_axis: mul_col(a, &b.z_axis),
        w_axis: mul_col(a, &b.w_axis),
    }
}

/// With the eye at the origin, the front vector straight down the negative
/// z axis and the world up vector: the view matrix is exactly the identity
/// transform, translation and rotation both trivial.
pub proof fn lemma_canonical_view_is_identity()
    ensures
        look_at_rh_val(
            Vec3Fx { x: 0, y: 0, z: 0 },
            Vec3Fx { x: 0, y: 0, z: -65536i64 },
            Vec3Fx { x: 0, y: 65536, z: 0 },
        ) == identity_val(),
{
    let eye = Vec3Fx { x: 0, y: 0, z: 0 };
    let front = Vec3Fx { x: 0, y: 0, z: -65536i64 };
    let up = Vec3Fx { x: 0, y: 65536, z: 0 };
    let dir = neg_val(front);
    assert(dir == Vec3Fx { x: 0, y: 0, z: 65536 });
    vstd::arithmetic::div_mod::lemma_div_of0(65536int);
    vstd::arithmetic::div_mod::lemma_div_by_multiple(65536int, 65536int);
    assert(crate::vec3::len_sq_num(dir) == 4294967296int) by (nonlinear_arith)
        requires
            dir == (Vec3Fx { x: 0, y: 0, z: 65536i64 }),
    ;
    assert(65536int * 65536int == 4294967296int) by (nonlinear_arith);
    assert(65537int * 65537int == 4295098369int) by (nonlinear_arith);
    crate::fx::lemma_sqrt_val_is(crate::vec3::len_sq_num(dir), 65536int);
    let f = normalize_val(dir);
    assert(trunc_div(65536int * 65536int, 65536int) == 65536int);
    assert(f == Vec3Fx { x: 0, y: 0, z: 65536 });
    let sc = cross_val(up, f);
    assert(trunc_div(-(65536int * 65536int), 65536int) == -65536int);
    assert(sc == Vec3Fx { x: 65536, y: 0, z: 0 });
    crate::fx::lemma_sqrt_val_is(crate::vec3::len_sq_num(sc), 65536int);
    let s = normalize_val(sc);
    assert(s == Vec3Fx { x: 65536, y: 0, z: 0 });
    let u = cross_val(f, s);
    assert(u == Vec3Fx { x: 0, y: 65536, z: 0 });
    assert(dot_val(s, eye) == 0);
    assert(dot_val(u, eye) == 0);
    assert(dot_val(f, eye) == 0);
}

} // verus!
