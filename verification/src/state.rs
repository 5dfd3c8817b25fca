//! The renderer's own state: surface configuration, camera and controller,
//! draw parameters, and the per-frame protocol.
//!
//! The host owns the GPU device and queue; each frame it asks this state
//! what to do.  `render` turns the outcome of acquiring the next surface
//! texture into one of four actions, so the lost/out-of-memory triage is a
//! total match that can be exercised without a GPU.

use crate::camera::process_events_val;
use crate::camera::update_camera_val;
use crate::camera::Camera;
use crate::camera::CameraController;
use crate::camera::TrigBasis;
use crate::camera::WindowInput;
use crate::camera::DT_MAX;
use crate::fx::trunc_div;
use crate::fx::FX_ONE;
use crate::matrix::Mat4Fx;
use crate::matrix::ASPECT_MAX;
use crate::matrix::ASPECT_MIN;
use crate::matrix::COT_MAX;
use crate::vec3::Vec3Fx;
use vstd::prelude::*;

verus! {

/// Number of instances laid out along each side of the square grid.
pub const INSTANCES_PER_ROW: u32 = 10;

/// A background color, components in 16.16 fixed point within `[0, 1]`.
#[derive(Clone, Copy, Debug, PartialEq, Eq, Structural)]
pub struct ColorFx {
    pub r: i64,
    pub g: i64,
    pub b: i64,
    pub a: i64,
}

/// The shading variants the renderer precompiles; the draw dispatch is a
/// total match over them, never an index.
#[derive(Clone, Copy, Debug, PartialEq, Eq, Structural)]
pub enum PipelineVariant {
    Solid,
    CornerHighlight,
}

/// The next variant in the toggle cycle.
pub open spec fn toggle_val(p: PipelineVariant) -> PipelineVariant {
    match p {
        PipelineVariant::Solid => PipelineVariant::CornerHighlight,
        PipelineVariant::CornerHighlight => PipelineVariant::Solid,
    }
}

/// The outcome of acquiring the next presentable surface texture.
#[derive(Clone, Copy, Debug, PartialEq, Eq, Structural)]
pub enum AcquireOutcome {
    Success,
    Timeout,
    Outdated,
    Lost,
    OutOfMemory,
}

/// Everything one recorded render pass needs: clear color, pipeline
/// variant, and the indexed, instanced draw call.
#[derive(Clone, Copy, Debug, PartialEq, Eq, Structural)]
pub struct DrawPlan {
    pub clear_color: ColorFx,
    pub pipeline: PipelineVariant,
    pub index_count: u32,
    pub instance_count: u32,
}

/// What the host must do with this frame.
#[derive(Clone, Copy, Debug, PartialEq, Eq, Structural)]
pub enum FrameAction {
    /// Record one render pass from the plan, submit it and present.
    Draw(DrawPlan),
    /// Reconfigure the surface with the stored size and skip this frame.
    Reconfigure,
    /// Skip this frame; the next tick retries on its own.
    SkipFrame,
    /// Unrecoverable device loss: terminate.
    Terminate,
}

/// The renderer state: surface size, camera, controller, and the fixed
/// draw parameters.
pub struct State {
    pub surface_width: u32,
    pub surface_height: u32,
    pub camera: Camera,
    pub camera_controller: CameraController,
    pub bg_color: ColorFx,
    pub pipeline: PipelineVariant,
    pub num_indices: u32,
    pub num_instances: u32,
}

/// The frame action for one acquire outcome: draw on success, reconfigure
/// and skip when the surface is lost or outdated, terminate when the
/// device is out of memory, and plainly skip a timed-out frame.
pub open spec fn render_val(s: State, acquired: AcquireOutcome) -> FrameAction {
    match acquired {
        AcquireOutcome::Success => FrameAction::Draw(
            DrawPlan {
                clear_color: s.bg_color,
                pipeline: s.pipeline,
                index_count: s.num_indices,
                instance_count: s.num_instances,
            },
        ),
        AcquireOutcome::Lost => FrameAction::Reconfigure,
        AcquireOutcome::Outdated => FrameAction::Reconfigure,
        AcquireOutcome::OutOfMemory => FrameAction::Terminate,
        AcquireOutcome::Timeout => FrameAction::SkipFrame,
    }
}

impl State {
    /// The camera, its projection parameters and the controller are all
    /// within their operating ranges.
    pub open spec fn wf(self) -> bool {
        &&& self.camera.wf()
        &&& self.camera.proj_wf()
        &&& self.camera_controller.wf()
    }

    /// A fresh renderer state for a surface of the given size.
    ///
    /// The camera starts slightly above and behind the origin looking down
    /// the negative z axis with a 45-degree vertical field of view, the
    /// near plane at 0.1 (rounded to the nearest fixed-point value) and
    /// the far plane at 100; the controller moves at 15 units per second
    /// with sensitivity 0.1 degrees per count.  The size bounds keep the
    /// aspect ratio within `[1/16, 64]`.
    pub fn new(width: u32, height: u32) -> (r: State)
        requires
            0 < width,
            0 < height,
            height <= 16 * width,
            width <= 64 * height,
        ensures
            r.surface_width == width,
            r.surface_height == height,
            r.camera.aspect == trunc_div(width * FX_ONE, height as int),
            r.camera == (Camera {
                eye: Vec3Fx { x: 0, y: 65536, z: 131072 },
                up: Vec3Fx { x: 0, y: 65536, z: 0 },
                front: Vec3Fx { x: 0, y: 0, z: -65536i64 },
                aspect: r.camera.aspect,
                fovy: 2949120,
                znear: 6554,
                zfar: 6553600,
            }),
            r.camera_controller == (CameraController {
                speed: 983040,
                sensitivity: 6554,
                is_forward_pressed: false,
                is_backward_pressed: false,
                is_left_pressed: false,
                is_right_pressed: false,
                is_up_pressed: false,
                is_down_pressed: false,
                yaw: 0,
                pitch: 0,
            }),
            r.bg_color == (ColorFx { r: 6554, g: 13107, b: 13107, a: 65536 }),
            r.pipeline == PipelineVariant::Solid,
            r.num_indices == 10,
            r.num_instances == INSTANCES_PER_ROW * INSTANCES_PER_ROW,
            r.wf(),
    {
        let wide: i64 = (width as i64) * FX_ONE;
        let aspect: i64 = crate::fx::trunc_div_i64(wide, height as i64);
        proof {
            lemma_aspect_in_range(width as int, height as int);
        }
        let camera = Camera {
            eye: Vec3Fx { x: 0, y: 65536, z: 131072 },
            up: Vec3Fx { x: 0, y: 65536, z: 0 },
            front: Vec3Fx { x: 0, y: 0, z: -65536i64 },
            aspect,
            fovy: 2949120,
            znear: 6554,
            zfar: 6553600,
        };
        let camera_controller = CameraController::new(983040, 6554);
        State {
            surface_width: width,
            surface_height: height,
            camera,
            camera_controller,
            bg_color: ColorFx { r: 6554, g: 13107, b: 13107, a: 65536 },
            pipeline: PipelineVariant::Solid,
            num_indices: 10,
            num_instances: INSTANCES_PER_ROW * INSTANCES_PER_ROW,
        }
    }

    /// Applies a window resize.  A size with either dimension zero (a
    /// minimized or occluded window) is ignored entirely; otherwise the
    /// stored surface size becomes exactly the new one.  Nothing else
    /// changes either way.
    pub fn resize(&mut self, new_width: u32, new_height: u32)
        ensures
            new_width > 0 && new_height > 0 ==> final(self).surface_width == new_width
                && final(self).surface_height == new_height,
            new_width == 0 || new_height == 0 ==> final(self).surface_width == old(
                self,
            ).surface_width && final(self).surface_height == old(self).surface_height,
            final(self).camera == old(self).camera,
            final(self).camera_controller == old(self).camera_controller,
            final(self).bg_color == old(self).bg_color,
            final(self).pipeline == old(self).pipeline,
            final(self).num_indices == old(self).num_indices,
            final(self).num_instances == old(self).num_instances,
            final(self).wf() == old(self).wf(),
    {
        if new_width > 0 && new_height > 0 {
            self.surface_width = new_width;
            self.surface_height = new_height;
        }
    }

    /// Feeds one window event to the camera controller; cursor-position
    /// events are deliberately ignored (the pointer is captured and only
    /// raw deltas steer the camera).
    pub fn input(&mut self, event: &WindowInput)
        ensures
            final(self).camera_controller == process_events_val(
                old(self).camera_controller,
                *event,
            ).0,
            final(self).camera == old(self).camera,
            final(self).surface_width == old(self).surface_width,
            final(self).surface_height == old(self).surface_height,
            final(self).bg_color == old(self).bg_color,
            final(self).pipeline == old(self).pipeline,
            final(self).num_indices == old(self).num_indices,
            final(self).num_instances == old(self).num_instances,
            final(self).wf() == old(self).wf(),
    {
        match event {
            WindowInput::CursorMoved => {},
            _ => {},
        }
        self.camera_controller.process_events(event);
    }

    /// Switches to the other precompiled pipeline variant; driven by its
    /// own dedicated input event in the host.
    pub fn toggle_pipeline(&mut self)
        ensures
            final(self).pipeline == toggle_val(old(self).pipeline),
            final(self).camera == old(self).camera,
            final(self).camera_controller == old(self).camera_controller,
            final(self).surface_width == old(self).surface_width,
            final(self).surface_height == old(self).surface_height,
            final(self).bg_color == old(self).bg_color,
            final(self).num_indices == old(self).num_indices,
            final(self).num_instances == old(self).num_instances,
            final(self).wf() == old(self).wf(),
    {
        self.pipeline = match self.pipeline {
            PipelineVariant::Solid => PipelineVariant::CornerHighlight,
            PipelineVariant::CornerHighlight => PipelineVariant::Solid,
        };
    }

    /// One frame tick before drawing: advances the camera by the elapsed
    /// time using the host-supplied trigonometric samples, and returns the
    /// view-projection matrix to upload into the camera uniform buffer
    /// (64 bytes, column-major).
    pub fn update(&mut self, delta_time: i64, trig: &TrigBasis, cot_half_fovy: i64) -> (vp: Mat4Fx)
        requires
            old(self).wf(),
            trig.wf(),
            0 <= delta_time <= DT_MAX,
            0 < cot_half_fovy <= COT_MAX,
        ensures
            final(self).camera == update_camera_val(
                old(self).camera_controller,
                old(self).camera,
                delta_time as int,
                *trig,
            ),
            vp == final(self).camera.vp_val(cot_half_fovy as int),
            final(self).camera_controller == old(self).camera_controller,
            final(self).surface_width == old(self).surface_width,
            final(self).surface_height == old(self).surface_height,
            final(self).bg_color == old(self).bg_color,
            final(self).pipeline == old(self).pipeline,
            final(self).num_indices == old(self).num_indices,
            final(self).num_instances == old(self).num_instances,
            final(self).wf(),
    {
        self.camera_controller.update_camera(&mut self.camera, delta_time, trig);
        self.camera.build_vp_matrix(cot_half_fovy)
    }

    /// Decides this frame from the acquire outcome.  On success the plan
    /// carries the current clear color, pipeline variant and draw call; a
    /// lost or outdated surface asks for a reconfigure and no draw; an
    /// out-of-memory device is fatal; a timeout merely skips.  The state
    /// itself is left untouched on every path.
    pub fn render(&self, acquired: AcquireOutcome) -> (action: FrameAction)
        ensures
            action == render_val(*self, acquired),
            acquired is Success <==> action is Draw,
            acquired is Lost || acquired is Outdated <==> action is Reconfigure,
            acquired is OutOfMemory <==> action is Terminate,
            acquired is Timeout <==> action is SkipFrame,
    {
        match acquired {
            AcquireOutcome::Success => FrameAction::Draw(
                DrawPlan {
                    clear_color: self.bg_color,
                    pipeline: self.pipeline,
                    index_count: self.num_indices,
                    instance_count: self.num_instances,
                },
            ),
            AcquireOutcome::Lost => FrameAction::Reconfigure,
            AcquireOutcome::Outdated => FrameAction::Reconfigure,
            AcquireOutcome::OutOfMemory => FrameAction::Terminate,
            AcquireOutcome::Timeout => FrameAction::SkipFrame,
        }
    }
}

/// A surface size within the accepted proportions yields an aspect ratio
/// within the projection's range.
proof fn lemma_aspect_in_range(width: int, height: int)
    requires
        0 < width <= 0xffff_ffff,
        0 < height <= 0xffff_ffff,
        height <= 16 * width,
        width <= 64 * height,
    ensures
        ASPECT_MIN <= trunc_div(width * FX_ONE, height) <= ASPECT_MAX,
        width * FX_ONE <= 0x7fff_ffff_ffff_ffff,
{
    let n = width * FX_ONE;
    assert(n >= ASPECT_MIN * height) by (nonlinear_arith)
        requires
            height <= 16 * width,
            0 < height,
            n == width * 65536,
            ASPECT_MIN == 4096int,
    ;
    assert(n <= ASPECT_MAX * height) by (nonlinear_arith)
        requires
            width <= 64 * height,
            0 < height,
            n == width * 65536,
            ASPECT_MAX == 4194304int,
    ;
    assert(trunc_div(n, height) >= ASPECT_MIN) by {
        vstd::arithmetic::div_mod::lemma_div_multiples_vanish(ASPECT_MIN as int, height);
        vstd::arithmetic::div_mod::lemma_div_is_ordered(ASPECT_MIN * height, n, height);
    }
    assert(trunc_div(n, height) <= ASPECT_MAX) by {
        vstd::arithmetic::div_mod::lemma_div_multiples_vanish(ASPECT_MAX as int, height);
        vstd::arithmetic::div_mod::lemma_div_is_ordered(n, ASPECT_MAX * height, height);
    }
    assert(n <= 0x7fff_ffff_ffff_ffff) by (nonlinear_arith)
        requires
            n == width * 65536,
            width <= 0xffff_ffff,
    ;
}

} // verus!
