//! The free-fly camera and its input-driven controller.
//!
//! Angles are accumulated in "square" fixed point (scale 2^32 per degree):
//! a pointer delta and the sensitivity are both 16.16 values, and their full
//! product is kept unrescaled.  Accumulation is therefore exact integer
//! addition, so two deltas compose precisely like their sum.

use crate::fx::clamp_i64;
use crate::fx::clamp_val;
use crate::fx::fx_mul;
use crate::fx::fx_mul_val;
use crate::fx::lemma_fx_mul_val_bound;
use crate::fx::sat_add_i64;
use crate::fx::sat_add_val;
use crate::fx::FX_ONE;
use crate::matrix::Mat4Fx;
use crate::vec3::cross;
use crate::vec3::cross_val;
use crate::vec3::lemma_cross_val_bounded;
use crate::vec3::Vec3Fx;
use vstd::prelude::*;

verus! {

/// One unit at the angle scale: `FX_ONE * FX_ONE`.
pub const FX_SQ: i64 = 4294967296;

/// The pitch clamp bound: 89 degrees at the angle scale.
pub const PITCH_LIMIT: i64 = 89 * FX_SQ;

/// Largest movement speed accepted at construction (16.16 scale).
pub const SPEED_MAX: i64 = 67108864;

/// Largest pointer sensitivity accepted at construction (16.16 scale).
pub const SENS_MAX: i64 = 67108864;

/// Largest pointer delta magnitude accepted per event (16.16 scale).
pub const DELTA_MAX: i64 = 68719476736;

/// Largest frame delta-time accepted per update (16.16 scale; 16 seconds).
pub const DT_MAX: i64 = 1048576;

/// The camera's position is kept inside this cube (16.16 scale).
pub const EYE_MAX: i64 = 134217728;

/// Camera state: position, orientation basis and projection parameters.
/// All scalars are 16.16 fixed point.
#[derive(Clone, Copy, Debug, PartialEq, Eq, Structural)]
pub struct Camera {
    pub eye: Vec3Fx,
    pub up: Vec3Fx,
    pub front: Vec3Fx,
    pub aspect: i64,
    pub fovy: i64,
    pub znear: i64,
    pub zfar: i64,
}

impl Camera {
    /// Well-formedness: the near plane sits strictly between zero and the
    /// far plane, and position and basis vectors are within the ranges the
    /// arithmetic preserves.
    pub open spec fn wf(self) -> bool {
        &&& 0 < self.znear < self.zfar
        &&& self.eye.bounded(EYE_MAX as int)
        &&& self.up.bounded(FX_ONE as int)
        &&& self.front.bounded(2 * FX_ONE as int)
    }

    /// The projection parameters lie in the ranges the fixed-point
    /// projection accepts.
    pub open spec fn proj_wf(self) -> bool {
        &&& crate::matrix::ASPECT_MIN <= self.aspect <= crate::matrix::ASPECT_MAX
        &&& 0 < self.znear <= crate::matrix::ZNEAR_MAX
        &&& self.znear + FX_ONE <= self.zfar <= crate::matrix::ZFAR_MAX
    }

    /// The combined view-projection transform: the perspective projection
    /// applied after the look-at view.
    pub open spec fn vp_val(self, cot_half_fovy: int) -> Mat4Fx {
        crate::matrix::mat_mul_val(
            crate::matrix::perspective_rh_val(
                cot_half_fovy,
                self.aspect as int,
                self.znear as int,
                self.zfar as int,
            ),
            crate::matrix::look_at_rh_val(self.eye, self.front, self.up),
        )
    }

    /// Builds `projection * view`: the right-handed look-at view from the
    /// eye along the front vector, combined with the right-handed
    /// perspective projection.  The cotangent of the half field-of-view is
    /// host-supplied (trigonometric evaluation is outside this crate).
    pub fn build_vp_matrix(&self, cot_half_fovy: i64) -> (r: Mat4Fx)
        requires
            self.wf(),
            self.proj_wf(),
            0 < cot_half_fovy <= crate::matrix::COT_MAX,
        ensures
            r == self.vp_val(cot_half_fovy as int),
    {
        let view = crate::matrix::look_at_rh(&self.eye, &self.front, &self.up);
        let proj = crate::matrix::perspective_rh(
            cot_half_fovy,
            self.aspect,
            self.znear,
            self.zfar,
        );
        crate::matrix::mat_mul(&proj, &view)
    }
}

/// The movement keys the controller recognizes; every other key is `Other`.
#[derive(Clone, Copy, Debug, PartialEq, Eq, Structural)]
pub enum Key {
    W,
    A,
    S,
    D,
    Q,
    E,
    Up,
    Down,
    Left,
    Right,
    Other,
}

/// A window input event, as the host's event loop reports it.
#[derive(Clone, Copy, Debug, PartialEq, Eq, Structural)]
pub enum WindowInput {
    Keyboard { key: Key, pressed: bool },
    CursorMoved,
    Other,
}

/// Input state machine for the camera: movement flags, accumulated yaw and
/// pitch (angle scale), and the construction-time speed and sensitivity.
#[derive(Clone, Copy, Debug, PartialEq, Eq, Structural)]
pub struct CameraController {
    pub speed: i64,
    pub sensitivity: i64,
    pub is_forward_pressed: bool,
    pub is_backward_pressed: bool,
    pub is_left_pressed: bool,
    pub is_right_pressed: bool,
    pub is_up_pressed: bool,
    pub is_down_pressed: bool,
    pub yaw: i64,
    pub pitch: i64,
}

/// The flag and yaw/pitch state after one input event, and whether the
/// event was handled.  Each movement key sets exactly one flag to the key's
/// pressed state; everything else is ignored.
pub open spec fn process_events_val(c: CameraController, input: WindowInput) -> (
    CameraController,
    bool,
) {
    match input {
        WindowInput::Keyboard { key, pressed } => match key {
            Key::W | Key::Up => (CameraController { is_forward_pressed: pressed, ..c }, true),
            Key::A | Key::Left => (CameraController { is_left_pressed: pressed, ..c }, true),
            Key::S | Key::Down => (CameraController { is_backward_pressed: pressed, ..c }, true),
            Key::D | Key::Right => (CameraController { is_right_pressed: pressed, ..c }, true),
            Key::Q => (CameraController { is_up_pressed: pressed, ..c }, true),
            Key::E => (CameraController { is_down_pressed: pressed, ..c }, true),
            Key::Other => (c, false),
        },
        _ => (c, false),
    }
}

/// An event is handled exactly when it is a key event for a movement key.
pub open spec fn recognized(input: WindowInput) -> bool {
    match input {
        WindowInput::Keyboard { key, pressed } => !(key is Other),
        _ => false,
    }
}

/// The controller state after one pointer delta: yaw grows by
/// `dx * sensitivity` (saturating at the `i64` range), pitch shrinks by
/// `dy * sensitivity` and is clamped to `[-PITCH_LIMIT, PITCH_LIMIT]`.
pub open spec fn cursor_move_val(c: CameraController, dx: int, dy: int) -> CameraController {
    CameraController {
        yaw: sat_add_val(c.yaw as int, dx * c.sensitivity) as i64,
        pitch: clamp_val(
            c.pitch - dy * c.sensitivity,
            -PITCH_LIMIT as int,
            PITCH_LIMIT as int,
        ) as i64,
        ..c
    }
}

/// The front direction derived from the yaw/pitch trigonometric samples by
/// the spherical-to-Cartesian conversion.
pub open spec fn front_val(t: TrigBasis) -> Vec3Fx {
    Vec3Fx {
        x: fx_mul_val(t.cos_yaw as int, t.cos_pitch as int) as i64,
        y: t.sin_pitch,
        z: fx_mul_val(t.sin_yaw as int, t.cos_pitch as int) as i64,
    }
}

/// One axis of the movement applied to the eye: the active flags add or
/// subtract the front, right and up contributions; simultaneous flags
/// compose additively.
pub open spec fn axis_shift(c: CameraController, f: int, r: int, u: int, step: int) -> int {
    (if c.is_forward_pressed {
        fx_mul_val(f, step)
    } else {
        0
    }) - (if c.is_backward_pressed {
        fx_mul_val(f, step)
    } else {
        0
    }) + (if c.is_right_pressed {
        fx_mul_val(r, step)
    } else {
        0
    }) - (if c.is_left_pressed {
        fx_mul_val(r, step)
    } else {
        0
    }) + (if c.is_up_pressed {
        fx_mul_val(u, step)
    } else {
        0
    }) - (if c.is_down_pressed {
        fx_mul_val(u, step)
    } else {
        0
    })
}

/// The camera after one frame update: the front vector is re-derived from
/// the trigonometric samples by the spherical-to-Cartesian conversion (the
/// samples lie on the unit circle, so the derived front is already unit
/// length and needs no separate normalization), the right vector is
/// `front x up`, and the eye moves along the active directions by
/// `speed * delta_time`, clamped into the world cube.  Vertical motion
/// uses the camera's fixed up vector, so it is world-vertical regardless
/// of pitch.
pub open spec fn update_camera_val(
    c: CameraController,
    cam: Camera,
    dt: int,
    t: TrigBasis,
) -> Camera {
    let front = front_val(t);
    let right = cross_val(front, cam.up);
    let step = fx_mul_val(c.speed as int, dt);
    Camera {
        front,
        eye: Vec3Fx {
            x: clamp_val(
                cam.eye.x + axis_shift(c, front.x as int, right.x as int, cam.up.x as int, step),
                -EYE_MAX as int,
                EYE_MAX as int,
            ) as i64,
            y: clamp_val(
                cam.eye.y + axis_shift(c, front.y as int, right.y as int, cam.up.y as int, step),
                -EYE_MAX as int,
                EYE_MAX as int,
            ) as i64,
            z: clamp_val(
                cam.eye.z + axis_shift(c, front.z as int, right.z as int, cam.up.z as int, step),
                -EYE_MAX as int,
                EYE_MAX as int,
            ) as i64,
        },
        ..cam
    }
}

/// Sine and cosine of the controller's yaw and pitch, supplied by the host
/// (trigonometric evaluation is outside this crate), in 16.16 fixed point.
#[derive(Clone, Copy, Debug, PartialEq, Eq, Structural)]
pub struct TrigBasis {
    pub sin_yaw: i64,
    pub cos_yaw: i64,
    pub sin_pitch: i64,
    pub cos_pitch: i64,
}

impl TrigBasis {
    /// Sines and cosines lie in `[-1, 1]`.
    pub open spec fn wf(self) -> bool {
        &&& -FX_ONE <= self.sin_yaw <= FX_ONE
        &&& -FX_ONE <= self.cos_yaw <= FX_ONE
        &&& -FX_ONE <= self.sin_pitch <= FX_ONE
        &&& -FX_ONE <= self.cos_pitch <= FX_ONE
    }
}

impl CameraController {
    /// Speed and sensitivity are nonnegative and bounded; pitch stays
    /// within the clamp interval.
    pub open spec fn wf(self) -> bool {
        &&& 0 <= self.speed <= SPEED_MAX
        &&& 0 <= self.sensitivity <= SENS_MAX
        &&& -PITCH_LIMIT <= self.pitch <= PITCH_LIMIT
    }

    /// A fresh controller: no key held, yaw and pitch zero.
    pub fn new(speed: i64, sensitivity: i64) -> (r: CameraController)
        requires
            0 <= speed <= SPEED_MAX,
            0 <= sensitivity <= SENS_MAX,
        ensures
            r == (CameraController {
                speed,
                sensitivity,
                is_forward_pressed: false,
                is_backward_pressed: false,
                is_left_pressed: false,
                is_right_pressed: false,
                is_up_pressed: false,
                is_down_pressed: false,
                yaw: 0,
                pitch: 0,
            }),
            r.wf(),
    {
        CameraController {
            speed,
            sensitivity,
            is_forward_pressed: false,
            is_backward_pressed: false,
            is_left_pressed: false,
            is_right_pressed: false,
            is_up_pressed: false,
            is_down_pressed: false,
            yaw: 0,
            pitch: 0,
        }
    }

    /// Applies one window input event.  A movement key sets its flag to the
    /// key's pressed state and the call reports the event as handled; any
    /// other event leaves the controller unchanged and reports unhandled.
    pub fn process_events(&mut self, input: &WindowInput) -> (handled: bool)
        ensures
            *final(self) == process_events_val(*old(self), *input).0,
            handled == process_events_val(*old(self), *input).1,
            handled == recognized(*input),
            final(self).wf() == old(self).wf(),
    {
        match input {
            WindowInput::Keyboard { key, pressed } => {
                let is_pressed = *pressed;
                match key {
                    Key::W | Key::Up => {
                        self.is_forward_pressed = is_pressed;
                        true
                    },
                    Key::A | Key::Left => {
                        self.is_left_pressed = is_pressed;
                        true
                    },
                    Key::S | Key::Down => {
                        self.is_backward_pressed = is_pressed;
                        true
                    },
                    Key::D | Key::Right => {
                        self.is_right_pressed = is_pressed;
                        true
                    },
                    Key::Q => {
                        self.is_up_pressed = is_pressed;
                        true
                    },
                    Key::E => {
                        self.is_down_pressed = is_pressed;
                        true
                    },
                    Key::Other => false,
                }
            },
            _ => false,
        }
    }

    /// Applies one raw pointer-motion delta (16.16 scale).  Yaw accumulates
    /// `dx * sensitivity`; pitch loses `dy * sensitivity` (inverted Y) and
    /// is clamped, so it never leaves `[-PITCH_LIMIT, PITCH_LIMIT]`.
    pub fn cursor_move(&mut self, dx: i64, dy: i64)
        requires
            old(self).wf(),
            -DELTA_MAX <= dx <= DELTA_MAX,
            -DELTA_MAX <= dy <= DELTA_MAX,
        ensures
            *final(self) == cursor_move_val(*old(self), dx as int, dy as int),
            -PITCH_LIMIT <= final(self).pitch <= PITCH_LIMIT,
            final(self).wf(),
    {
        proof {
            assert(-(DELTA_MAX * SENS_MAX) <= dx * self.sensitivity <= DELTA_MAX * SENS_MAX)
                by (nonlinear_arith)
                requires
                    -DELTA_MAX <= dx <= DELTA_MAX,
                    0 <= self.sensitivity <= SENS_MAX,
            ;
            assert(-(DELTA_MAX * SENS_MAX) <= dy * self.sensitivity <= DELTA_MAX * SENS_MAX)
                by (nonlinear_arith)
                requires
                    -DELTA_MAX <= dy <= DELTA_MAX,
                    0 <= self.sensitivity <= SENS_MAX,
            ;
        }
        let dyaw: i64 = dx * self.sensitivity;
        let dpitch: i64 = dy * self.sensitivity;
        self.yaw = sat_add_i64(self.yaw, dyaw);
        self.pitch = clamp_i64(self.pitch - dpitch, -PITCH_LIMIT, PITCH_LIMIT);
    }

    /// One frame of camera motion, from the current flags, the supplied
    /// trigonometric samples of yaw and pitch, and the frame's delta-time.
    #[verifier::rlimit(100)]
    pub fn update_camera(&self, camera: &mut Camera, delta_time: i64, trig: &TrigBasis)
        requires
            self.wf(),
            old(camera).wf(),
            trig.wf(),
            0 <= delta_time <= DT_MAX,
        ensures
            *final(camera) == update_camera_val(*self, *old(camera), delta_time as int, *trig),
            final(camera).front == front_val(*trig),
            final(camera).up == old(camera).up,
            final(camera).wf(),
    {
        proof {
            lemma_fx_mul_val_bound(
                trig.cos_yaw as int,
                trig.cos_pitch as int,
                FX_ONE as int,
                FX_ONE as int,
            );
            lemma_fx_mul_val_bound(
                trig.sin_yaw as int,
                trig.cos_pitch as int,
                FX_ONE as int,
                FX_ONE as int,
            );
        }
        let front = Vec3Fx {
            x: fx_mul(trig.cos_yaw, trig.cos_pitch),
            y: trig.sin_pitch,
            z: fx_mul(trig.sin_yaw, trig.cos_pitch),
        };
        camera.front = front;
        let right = cross(&front, &camera.up);
        proof {
            lemma_cross_val_bounded(front, camera.up, FX_ONE as int);
        }
        let step = fx_mul(self.speed, delta_time);
        proof {
            lemma_fx_mul_val_bound(
                self.speed as int,
                delta_time as int,
                SPEED_MAX as int,
                DT_MAX as int,
            );
            lemma_axis_terms_bounded(front, right, camera.up, step as int);
        }
        let fwd_x: i64 = fx_mul(front.x, step);
        let fwd_y: i64 = fx_mul(front.y, step);
        let fwd_z: i64 = fx_mul(front.z, step);
        let rgt_x: i64 = fx_mul(right.x, step);
        let rgt_y: i64 = fx_mul(right.y, step);
        let rgt_z: i64 = fx_mul(right.z, step);
        let up_x: i64 = fx_mul(camera.up.x, step);
        let up_y: i64 = fx_mul(camera.up.y, step);
        let up_z: i64 = fx_mul(camera.up.z, step);
        let dx: i64 = (if self.is_forward_pressed {
            fwd_x
        } else {
            0
        }) - (if self.is_backward_pressed {
            fwd_x
        } else {
            0
        }) + (if self.is_right_pressed {
            rgt_x
        } else {
            0
        }) - (if self.is_left_pressed {
            rgt_x
        } else {
            0
        }) + (if self.is_up_pressed {
            up_x
        } else {
            0
        }) - (if self.is_down_pressed {
            up_x
        } else {
            0
        });
        let dy: i64 = (if self.is_forward_pressed {
            fwd_y
        } else {
            0
        }) - (if self.is_backward_pressed {
            fwd_y
        } else {
            0
        }) + (if self.is_right_pressed {
            rgt_y
        } else {
            0
        }) - (if self.is_left_pressed {
            rgt_y
        } else {
            0
        }) + (if self.is_up_pressed {
            up_y
        } else {
            0
        }) - (if self.is_down_pressed {
            up_y
        } else {
            0
        });
        let dz: i64 = (if self.is_forward_pressed {
            fwd_z
        } else {
            0
        }) - (if self.is_backward_pressed {
            fwd_z
        } else {
            0
        }) + (if self.is_right_pressed {
            rgt_z
        } else {
            0
        }) - (if self.is_left_pressed {
            rgt_z
        } else {
            0
        }) + (if self.is_up_pressed {
            up_z
        } else {
            0
        }) - (if self.is_down_pressed {
            up_z
        } else {
            0
        });
        camera.eye = Vec3Fx {
            x: clamp_i64(camera.eye.x + dx, -EYE_MAX, EYE_MAX),
            y: clamp_i64(camera.eye.y + dy, -EYE_MAX, EYE_MAX),
            z: clamp_i64(camera.eye.z + dz, -EYE_MAX, EYE_MAX),
        };
    }
}

/// The per-axis movement terms are bounded, so their signed sum fits `i64`.
proof fn lemma_axis_terms_bounded(front: Vec3Fx, right: Vec3Fx, up: Vec3Fx, step: int)
    requires
        front.bounded(FX_ONE as int),
        right.bounded(2 * FX_ONE as int),
        up.bounded(FX_ONE as int),
        -1073741824 <= step <= 1073741824,
    ensures
        -2147483648 <= fx_mul_val(front.x as int, step) <= 2147483648,
        -2147483648 <= fx_mul_val(front.y as int, step) <= 2147483648,
        -2147483648 <= fx_mul_val(front.z as int, step) <= 2147483648,
        -2147483648 <= fx_mul_val(right.x as int, step) <= 2147483648,
        -2147483648 <= fx_mul_val(right.y as int, step) <= 2147483648,
        -2147483648 <= fx_mul_val(right.z as int, step) <= 2147483648,
        -2147483648 <= fx_mul_val(up.x as int, step) <= 2147483648,
        -2147483648 <= fx_mul_val(up.y as int, step) <= 2147483648,
        -2147483648 <= fx_mul_val(up.z as int, step) <= 2147483648,
{
    lemma_fx_mul_val_bound(front.x as int, step, 2 * FX_ONE as int, 1073741824);
    lemma_fx_mul_val_bound(front.y as int, step, 2 * FX_ONE as int, 1073741824);
    lemma_fx_mul_val_bound(front.z as int, step, 2 * FX_ONE as int, 1073741824);
    lemma_fx_mul_val_bound(right.x as int, step, 2 * FX_ONE as int, 1073741824);
    lemma_fx_mul_val_bound(right.y as int, step, 2 * FX_ONE as int, 1073741824);
    lemma_fx_mul_val_bound(right.z as int, step, 2 * FX_ONE as int, 1073741824);
    lemma_fx_mul_val_bound(up.x as int, step, 2 * FX_ONE as int, 1073741824);
    lemma_fx_mul_val_bound(up.y as int, step, 2 * FX_ONE as int, 1073741824);
    lemma_fx_mul_val_bound(up.z as int, step, 2 * FX_ONE as int, 1073741824);
}

/// Pointer deltas accumulate linearly: when neither the pitch clamp nor the
/// yaw saturation engages, applying `(dx1, dy1)` and then `(dx2, dy2)`
/// leaves the controller exactly as the single combined delta
/// `(dx1 + dx2, dy1 + dy2)` would.
pub proof fn lemma_deltas_accumulate(
    c: CameraController,
    dx1: int,
    dy1: int,
    dx2: int,
    dy2: int,
)
    requires
        i64::MIN <= c.yaw + dx1 * c.sensitivity <= i64::MAX,
        i64::MIN <= c.yaw + dx1 * c.sensitivity + dx2 * c.sensitivity <= i64::MAX,
        -PITCH_LIMIT <= c.pitch - dy1 * c.sensitivity <= PITCH_LIMIT,
        -PITCH_LIMIT <= c.pitch - dy1 * c.sensitivity - dy2 * c.sensitivity <= PITCH_LIMIT,
    ensures
        cursor_move_val(cursor_move_val(c, dx1, dy1), dx2, dy2) == cursor_move_val(
            c,
            dx1 + dx2,
            dy1 + dy2,
        ),
{
    assert((dx1 + dx2) * c.sensitivity == dx1 * c.sensitivity + dx2 * c.sensitivity)
        by (nonlinear_arith);
    assert((dy1 + dy2) * c.sensitivity == dy1 * c.sensitivity + dy2 * c.sensitivity)
        by (nonlinear_arith);
}

} // verus!
