//! One placed copy of the shared mesh: a rigid transform given by a
//! position and a rotation quaternion, and its model matrix as uploaded to
//! the instance buffer.

use crate::fx::fx_mul;
use crate::fx::fx_mul_val;
use crate::fx::lemma_fx_mul_val_bound;
use crate::fx::FX_ONE;
use crate::matrix::Mat4Fx;
use crate::matrix::Vec4Fx;
use crate::vec3::Vec3Fx;
use crate::vertex::AttrFormat;
use crate::vertex::BufferLayout;
use crate::vertex::VertexAttr;
use vstd::prelude::*;

verus! {

/// A rotation quaternion in 16.16 fixed point.
#[derive(Clone, Copy, Debug, PartialEq, Eq, Structural)]
pub struct QuatFx {
    pub x: i64,
    pub y: i64,
    pub z: i64,
    pub w: i64,
}

impl QuatFx {
    /// A unit quaternion's components lie in `[-1, 1]`.
    pub open spec fn wf(self) -> bool {
        &&& -FX_ONE <= self.x <= FX_ONE
        &&& -FX_ONE <= self.y <= FX_ONE
        &&& -FX_ONE <= self.z <= FX_ONE
        &&& -FX_ONE <= self.w <= FX_ONE
    }

    /// The identity rotation.
    pub fn identity() -> (r: QuatFx)
        ensures
            r == identity_quat(),
            r.wf(),
    {
        QuatFx { x: 0, y: 0, z: 0, w: FX_ONE }
    }
}

/// The identity rotation quaternion.
pub open spec fn identity_quat() -> QuatFx {
    QuatFx { x: 0, y: 0, z: 0, w: 65536 }
}

/// One rigid-body placement of the shared mesh.  Immutable after creation:
/// the placements are computed once at startup and uploaded once.
#[derive(Clone, Copy, Debug, PartialEq, Eq, Structural)]
pub struct Instance {
    pub position: Vec3Fx,
    pub rotation: QuatFx,
}

/// The model matrix of an instance: the quaternion's rotation in the upper
/// three columns and the position in the fourth, column-major.
pub open spec fn to_matrix_val(i: Instance) -> Mat4Fx {
    let q = i.rotation;
    let xx = fx_mul_val(q.x as int, 2 * q.x);
    let xy = fx_mul_val(q.x as int, 2 * q.y);
    let xz = fx_mul_val(q.x as int, 2 * q.z);
    let yy = fx_mul_val(q.y as int, 2 * q.y);
    let yz = fx_mul_val(q.y as int, 2 * q.z);
    let zz = fx_mul_val(q.z as int, 2 * q.z);
    let wx = fx_mul_val(q.w as int, 2 * q.x);
    let wy = fx_mul_val(q.w as int, 2 * q.y);
    let wz = fx_mul_val(q.w as int, 2 * q.z);
    Mat4Fx {
        x_axis: Vec4Fx {
            x: (FX_ONE - (yy + zz)) as i64,
            y: (xy + wz) as i64,
            z: (xz - wy) as i64,
            w: 0,
        },
        y_axis: Vec4Fx {
            x: (xy - wz) as i64,
            y: (FX_ONE - (xx + zz)) as i64,
            z: (yz + wx) as i64,
            w: 0,
        },
        z_axis: Vec4Fx {
            x: (xz + wy) as i64,
            y: (yz - wx) as i64,
            z: (FX_ONE - (xx + yy)) as i64,
            w: 0,
        },
        w_axis: Vec4Fx { x: i.position.x, y: i.position.y, z: i.position.z, w: FX_ONE },
    }
}

/// A pure translation by `p`: the identity rotation columns with `p` in the
/// fourth column.
pub open spec fn translation_val(p: Vec3Fx) -> Mat4Fx {
    Mat4Fx {
        x_axis: Vec4Fx { x: 65536, y: 0, z: 0, w: 0 },
        y_axis: Vec4Fx { x: 0, y: 65536, z: 0, w: 0 },
        z_axis: Vec4Fx { x: 0, y: 0, z: 65536, w: 0 },
        w_axis: Vec4Fx { x: p.x, y: p.y, z: p.z, w: 65536 },
    }
}

/// With the identity rotation an instance's model matrix is exactly a pure
/// translation by its position, whatever the position is.
pub proof fn lemma_identity_rotation_translates(p: Vec3Fx)
    ensures
        to_matrix_val(Instance { position: p, rotation: identity_quat() }) == translation_val(p),
{
    vstd::arithmetic::div_mod::lemma_div_of0(FX_ONE as int);
    assert(fx_mul_val(0, 0) == 0);
    assert(fx_mul_val(65536int, 0) == 0);
    assert(fx_mul_val(0, 2 * 65536int) == 0);
}

impl Instance {
    /// The model matrix, as written to the instance buffer.
    pub fn to_matrix(&self) -> (r: Mat4Fx)
        requires
            self.rotation.wf(),
        ensures
            r == to_matrix_val(*self),
    {
        let q = self.rotation;
        proof {
            lemma_quat_products_bounded(q);
        }
        let xx: i64 = fx_mul(q.x, 2 * q.x);
        let xy: i64 = fx_mul(q.x, 2 * q.y);
        let xz: i64 = fx_mul(q.x, 2 * q.z);
        let yy: i64 = fx_mul(q.y, 2 * q.y);
        let yz: i64 = fx_mul(q.y, 2 * q.z);
        let zz: i64 = fx_mul(q.z, 2 * q.z);
        let wx: i64 = fx_mul(q.w, 2 * q.x);
        let wy: i64 = fx_mul(q.w, 2 * q.y);
        let wz: i64 = fx_mul(q.w, 2 * q.z);
        Mat4Fx {
            x_axis: Vec4Fx { x: FX_ONE - (yy + zz), y: xy + wz, z: xz - wy, w: 0 },
            y_axis: Vec4Fx { x: xy - wz, y: FX_ONE - (xx + zz), z: yz + wx, w: 0 },
            z_axis: Vec4Fx { x: xz + wy, y: yz - wx, z: FX_ONE - (xx + yy), w: 0 },
            w_axis: Vec4Fx {
                x: self.position.x,
                y: self.position.y,
                z: self.position.z,
                w: FX_ONE,
            },
        }
    }

    /// The layout of the instance buffer: one column-major 4x4 f32 matrix
    /// per record, 64 bytes, its four columns feeding shader locations 5
    /// through 8, stepping per instance.
    pub fn desc() -> (r: BufferLayout)
        ensures
            r.array_stride == 64,
            r.step_instance,
            r.attrs@ == seq![
                VertexAttr { offset: 0, shader_location: 5, format: AttrFormat::Float32x4 },
                VertexAttr { offset: 16, shader_location: 6, format: AttrFormat::Float32x4 },
                VertexAttr { offset: 32, shader_location: 7, format: AttrFormat::Float32x4 },
                VertexAttr { offset: 48, shader_location: 8, format: AttrFormat::Float32x4 },
            ],
    {
        let mut attrs: Vec<VertexAttr> = Vec::new();
        attrs.push(VertexAttr { offset: 0, shader_location: 5, format: AttrFormat::Float32x4 });
        attrs.push(VertexAttr { offset: 16, shader_location: 6, format: AttrFormat::Float32x4 });
        attrs.push(VertexAttr { offset: 32, shader_location: 7, format: AttrFormat::Float32x4 });
        attrs.push(VertexAttr { offset: 48, shader_location: 8, format: AttrFormat::Float32x4 });
        proof {
            assert(attrs@ =~= seq![
                VertexAttr { offset: 0, shader_location: 5, format: AttrFormat::Float32x4 },
                VertexAttr { offset: 16, shader_location: 6, format: AttrFormat::Float32x4 },
                VertexAttr { offset: 32, shader_location: 7, format: AttrFormat::Float32x4 },
                VertexAttr { offset: 48, shader_location: 8, format: AttrFormat::Float32x4 },
            ]);
        }
        BufferLayout { array_stride: 64, step_instance: true, attrs }
    }
}

/// The doubled quaternion products stay within the multiplier's range and
/// keep every matrix entry within `i64`.
proof fn lemma_quat_products_bounded(q: QuatFx)
    requires
        q.wf(),
    ensures
        -(2 * FX_ONE) <= fx_mul_val(q.x as int, 2 * q.x) <= 2 * FX_ONE,
        -(2 * FX_ONE) <= fx_mul_val(q.x as int, 2 * q.y) <= 2 * FX_ONE,
        -(2 * FX_ONE) <= fx_mul_val(q.x as int, 2 * q.z) <= 2 * FX_ONE,
        -(2 * FX_ONE) <= fx_mul_val(q.y as int, 2 * q.y) <= 2 * FX_ONE,
        -(2 * FX_ONE) <= fx_mul_val(q.y as int, 2 * q.z) <= 2 * FX_ONE,
        -(2 * FX_ONE) <= fx_mul_val(q.z as int, 2 * q.z) <= 2 * FX_ONE,
        -(2 * FX_ONE) <= fx_mul_val(q.w as int, 2 * q.x) <= 2 * FX_ONE,
        -(2 * FX_ONE) <= fx_mul_val(q.w as int, 2 * q.y) <= 2 * FX_ONE,
        -(2 * FX_ONE) <= fx_mul_val(q.w as int, 2 * q.z) <= 2 * FX_ONE,
{
    lemma_fx_mul_val_bound(q.x as int, 2 * q.x, FX_ONE as int, 2 * FX_ONE as int);
    lemma_fx_mul_val_bound(q.x as int, 2 * q.y, FX_ONE as int, 2 * FX_ONE as int);
    lemma_fx_mul_val_bound(q.x as int, 2 * q.z, FX_ONE as int, 2 * FX_ONE as int);
    lemma_fx_mul_val_bound(q.y as int, 2 * q.y, FX_ONE as int, 2 * FX_ONE as int);
    lemma_fx_mul_val_bound(q.y as int, 2 * q.z, FX_ONE as int, 2 * FX_ONE as int);
    lemma_fx_mul_val_bound(q.z as int, 2 * q.z, FX_ONE as int, 2 * FX_ONE as int);
    lemma_fx_mul_val_bound(q.w as int, 2 * q.x, FX_ONE as int, 2 * FX_ONE as int);
    lemma_fx_mul_val_bound(q.w as int, 2 * q.y, FX_ONE as int, 2 * FX_ONE as int);
    lemma_fx_mul_val_bound(q.w as int, 2 * q.z, FX_ONE as int, 2 * FX_ONE as int);
}

} // verus!
