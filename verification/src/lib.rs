//! Core of an interactive instanced renderer with a free-fly camera.
//!
//! This crate holds the verified logic of the renderer: the camera and its
//! input-driven controller, the per-frame draw protocol, the surface
//! configuration rules, and the fixed binary vertex/instance layouts.  The
//! host program owns the actual GPU device, window and event loop; it feeds
//! plain values (key states, pointer deltas, sizes, acquire outcomes,
//! trigonometric samples) into this crate and carries the returned plans and
//! matrices to the GPU.
//!
//! Every continuous quantity (position, angle, matrix entry) is held in
//! signed 16.16 fixed point: the `i64` value `v` stands for the real number
//! `v / 65536`.  All arithmetic on these values is exact integer arithmetic,
//! so each contract pins its result completely.

use vstd::prelude::*;

pub mod camera;
pub mod fx;
pub mod instance;
pub mod matrix;
pub mod state;
pub mod vec3;
pub mod vertex;

use crate::fx::trunc_div;
use crate::fx::FX_ONE;

verus! {

/// One half turn (180 degrees) in radians, in 16.16 fixed point:
/// the nearest fixed-point value to pi.
pub const PI_FX: i64 = 205887;

/// Largest magnitude accepted by `deg_to_rad`, so that the intermediate
/// product stays within `i64`.
pub const DEG_MAX: i64 = 17592186044416;

/// The exact value `deg_to_rad` computes: `deg * pi / 180` in fixed point,
/// truncated toward zero.
pub open spec fn deg_to_rad_val(deg: int) -> int {
    trunc_div(deg * PI_FX, 180 * FX_ONE)
}

/// Converts an angle from fixed-point degrees to fixed-point radians.
pub fn deg_to_rad(deg: i64) -> (r: i64)
    requires
        -DEG_MAX <= deg <= DEG_MAX,
    ensures
        r == deg_to_rad_val(deg as int),
{
    proof {
        assert(-(DEG_MAX * PI_FX) <= deg * PI_FX <= DEG_MAX * PI_FX) by (nonlinear_arith)
            requires
                -DEG_MAX <= deg <= DEG_MAX,
                DEG_MAX == 17592186044416int,
                PI_FX == 205887int,
        ;
    }
    fx::mul_div_fx(deg, PI_FX, 180 * FX_ONE)
}

/// The index list of the shared pentagon mesh: three fans around vertex 4,
/// closed by a repeat of index 0 for alignment, exactly as uploaded to the
/// index buffer.
pub fn pentagon_indices() -> (r: Vec<u16>)
    ensures
        r@ == seq![0u16, 1u16, 4u16, 1u16, 2u16, 4u16, 2u16, 3u16, 4u16, 0u16],
{
    let mut v: Vec<u16> = Vec::new();
    v.push(0);
    v.push(1);
    v.push(4);
    v.push(1);
    v.push(2);
    v.push(4);
    v.push(2);
    v.push(3);
    v.push(4);
    v.push(0);
    proof {
        assert(v@ =~= seq![0u16, 1u16, 4u16, 1u16, 2u16, 4u16, 2u16, 3u16, 4u16, 0u16]);
    }
    v
}

/// Number of vertices of the shared pentagon mesh.
pub fn pentagon_vertex_count() -> (r: u32)
    ensures
        r == 5,
{
    5
}

} // verus!
