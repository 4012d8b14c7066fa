//! The renderer's state and what it decides.
//!
//! `State` owns everything about the renderer that is not a device handle:
//! the size and configuration of the surface, the pipeline, the mesh, the
//! parameter blocks, the camera and the input that waits to move it. Its
//! methods take what happened (an event, the clock, the outcome of asking
//! for a frame) and answer with what is to be done on the device.

use vstd::prelude::*;
use crate::binding::{BindGroupLayoutDescriptor, BufferInitDescriptor};
use crate::bytes::is_memory_image;
use crate::camera::controller::{CameraController, CameraStep, ControllerView, Held};
use crate::camera::{Camera, Projection};
use crate::geometry::quad::{
    mesh_commands, quad_attributes, quad_indices, quad_vertices, DrawQuad, QuadVertex,
};
use crate::geometry::{Vertex, VertexBinding, VertexBufferLayout, VertexStepMode};
use crate::input::{ElementState, MouseButton, MouseDelta, WindowEvent};
use crate::pass::{
    Color, LoadOp, Operations, RenderCommand, RenderPass, RenderPassColorAttachment,
    RenderPassDescriptor,
};
use crate::pipeline::{
    compile_shader, create_pipeline, PipelineLayoutDescriptor, PushConstantRange,
    RenderPipelineDescriptor,
};
use crate::surface::{PhysicalSize, SurfaceConfiguration};
use crate::time::{micros_between, Duration, Instant};
use crate::uniform::camera::CameraUniform;
use crate::uniform::system::SystemUniform;
use crate::uniform::{Uniform, UniformBinding};

verus! {

/// Where the camera starts: the point (0, 5, 10), as 32-bit floats.
pub const CAMERA_POSITION_X: u32 = 0;

pub const CAMERA_POSITION_Y: u32 = 0x40A0_0000;

pub const CAMERA_POSITION_Z: u32 = 0x4120_0000;

/// Yaw of the camera at the start: -90 degrees in radians, a 32-bit float.
pub const CAMERA_YAW: u32 = 0xBFC9_0FDB;

/// Pitch of the camera at the start: -20 degrees in radians, a 32-bit float.
pub const CAMERA_PITCH: u32 = 0xBEB2_B8C2;

/// Vertical field of view: 45 degrees in radians, a 32-bit float.
pub const FOVY: u32 = 0x3F49_0FDB;

/// Near clip plane: the 32-bit float 0.1.
pub const ZNEAR: u32 = 0x3DCC_CCCD;

/// Far clip plane: the 32-bit float 100.
pub const ZFAR: u32 = 0x42C8_0000;

/// Speed of the camera: the 32-bit float 4.
pub const CAMERA_SPEED: u32 = 0x4080_0000;

/// Sensitivity of the camera to the mouse: the 32-bit float 0.4.
pub const CAMERA_SENSITIVITY: u32 = 0x3ECC_CCCD;

/// Label of the layout of the bind group of frame-wide parameters.
pub const SYSTEM_LAYOUT_LABEL: &'static str = "Time Buffer Bind Group Layout";

/// Label of the layout of the bind group of camera parameters.
pub const CAMERA_LAYOUT_LABEL: &'static str = "Camera Buffer Bind Group Layout";

/// The background: red 0.1, green 0.2, blue 0.3, opaque, as 64-bit floats.
pub open spec fn background() -> Color {
    Color {
        r: 0x3FB9_9999_9999_999A,
        g: 0x3FC9_9999_9999_999A,
        b: 0x3FD3_3333_3333_3333,
        a: 0x3FF0_0000_0000_0000,
    }
}

/// Why no frame could be had from the surface.
#[derive(Clone, Copy, Debug, PartialEq, Eq, Structural)]
pub enum SurfaceError {
    /// The wait for the next frame ran out.
    Timeout,
    /// The surface has changed under the swap chain.
    Outdated,
    /// The swap chain is gone.
    Lost,
    /// No memory is left for a frame.
    OutOfMemory,
}

/// One write into a buffer: the buffer, the offset of the first byte, and
/// the bytes.
#[derive(Debug, PartialEq, Eq)]
pub struct BufferWrite<'a> {
    pub buffer: &'a BufferInitDescriptor,
    pub offset: u64,
    pub data: Vec<u8>,
}

/// One frame to encode: the encoder, the debug group around its passes, and
/// its one render pass.
#[derive(Debug)]
pub struct Frame<'a> {
    pub encoder_label: &'static str,
    pub debug_group: &'static str,
    pub render_pass: RenderPass<'a>,
}

/// All of the renderer that is not a device handle.
#[derive(Debug)]
pub struct State {
    surface_config: SurfaceConfiguration,
    render_pipeline: RenderPipelineDescriptor,
    render_pipeline_layout: PipelineLayoutDescriptor,
    mesh: VertexBinding,
    size: PhysicalSize,
    start_render_time: Instant,
    last_render_time: Instant,
    mouse_lock: bool,
    camera: Camera,
    projection: Projection,
    camera_controller: CameraController,
    system_uniform: UniformBinding<SystemUniform>,
    camera_uniform: UniformBinding<CameraUniform>,
}

impl State {
    pub closed spec fn spec_surface_config(&self) -> &SurfaceConfiguration {
        &self.surface_config
    }

    pub closed spec fn spec_render_pipeline(&self) -> &RenderPipelineDescriptor {
        &self.render_pipeline
    }

    pub closed spec fn spec_render_pipeline_layout(&self) -> &PipelineLayoutDescriptor {
        &self.render_pipeline_layout
    }

    pub closed spec fn spec_mesh(&self) -> &VertexBinding {
        &self.mesh
    }

    pub closed spec fn spec_current_size(&self) -> PhysicalSize {
        self.size
    }

    pub closed spec fn spec_start_render_time(&self) -> Instant {
        self.start_render_time
    }

    pub closed spec fn spec_last_render_time(&self) -> Instant {
        self.last_render_time
    }

    pub closed spec fn spec_mouse_lock(&self) -> bool {
        self.mouse_lock
    }

    pub closed spec fn spec_camera(&self) -> &Camera {
        &self.camera
    }

    pub closed spec fn spec_projection(&self) -> &Projection {
        &self.projection
    }

    /// What the camera controller holds.
    pub closed spec fn controller(&self) -> ControllerView {
        self.camera_controller@
    }

    pub closed spec fn spec_system_uniform(&self) -> &UniformBinding<SystemUniform> {
        &self.system_uniform
    }

    pub closed spec fn spec_camera_uniform(&self) -> &UniformBinding<CameraUniform> {
        &self.camera_uniform
    }

    /// The state is consistent: the surface can be drawn to, it is
    /// configured for the current size, the aspect ratio is that of the
    /// current size, and every buffer has the size of what it holds.
    pub open spec fn wf(&self) -> bool {
        &&& self.current_size().is_drawable()
        &&& self.surface_config().spec_size() == self.current_size()
        &&& self.projection().aspect_width() == self.current_size().width
        &&& self.projection().aspect_height() == self.current_size().height
        &&& self.system_uniform().wf()
        &&& self.camera_uniform().wf()
        &&& self.mesh().wf()
    }

    /// Nothing that exists on the device differs between `self` and
    /// `before`, nor does the time of the start.
    pub open spec fn same_resources(&self, before: &State) -> bool {
        &&& self.render_pipeline_layout() == before.render_pipeline_layout()
        &&& self.mesh() == before.mesh()
        &&& self.system_uniform().buffer() == before.system_uniform().buffer()
        &&& self.system_uniform().bind_group() == before.system_uniform().bind_group()
        &&& self.camera_uniform().buffer() == before.camera_uniform().buffer()
        &&& self.camera_uniform().bind_group() == before.camera_uniform().bind_group()
        &&& self.surface_config().format == before.surface_config().format
        &&& self.surface_config().usage == before.surface_config().usage
        &&& self.surface_config().present_mode == before.surface_config().present_mode
        &&& self.surface_config().alpha_mode == before.surface_config().alpha_mode
        &&& self.start_render_time() == before.start_render_time()
    }

    /// The pipeline is the standard one for the quad, built from `source`.
    pub open spec fn pipeline_is(&self, source: Seq<char>) -> bool {
        &&& self.render_pipeline().is_standard(
            self.render_pipeline_layout().label,
            self.surface_config().format,
            None,
        )
        &&& self.render_pipeline().shader.label == "Shader"
        &&& self.render_pipeline().shader.source@ == source
        &&& self.render_pipeline().vertex.buffers@.len() == 1
        &&& self.render_pipeline().vertex.buffers@[0].array_stride == 20
        &&& self.render_pipeline().vertex.buffers@[0].step_mode == VertexStepMode::Vertex
        &&& self.render_pipeline().vertex.buffers@[0].attributes@ == quad_attributes()
        &&& self.render_pipeline().vertex.buffers@[0].is_packed()
    }

    /// The state of a renderer that starts at time `now` on a surface of
    /// the given size and format, with a shader from `source`. `time` is the
    /// number of seconds since the start as a 32-bit float, for the first
    /// value of the frame-wide parameters.
    pub fn new(
        source: &str,
        size: PhysicalSize,
        format: wgpu::TextureFormat,
        now: Instant,
        time: u32,
    ) -> (state: Self)
        requires
            size.is_drawable(),
        ensures
            state.wf(),
            state.current_size() == size,
            *state.surface_config() == SurfaceConfiguration::spec_new(format, size),
            state.render_pipeline_layout().label == "Render Pipeline Layout",
            state.render_pipeline_layout().bind_group_layouts@.len() == 2,
            state.render_pipeline_layout().bind_group_layouts@[0].is_uniform_block(
                SYSTEM_LAYOUT_LABEL,
            ),
            state.render_pipeline_layout().bind_group_layouts@[1].is_uniform_block(
                CAMERA_LAYOUT_LABEL,
            ),
            state.render_pipeline_layout().push_constant_ranges@.len() == 0,
            state.pipeline_is(source@),
            state.system_uniform().uniform().time == time,
            state.system_uniform().uniform().resolution@ == seq![size.width, size.height],
            state.system_uniform().binds(*state.system_uniform().uniform(), SYSTEM_LAYOUT_LABEL),
            state.camera_uniform().uniform().view_position@ == seq![0u32, 0u32, 0u32, 0u32],
            crate::uniform::camera::matrix_view(state.camera_uniform().uniform().view_proj)
                == crate::uniform::camera::identity(),
            state.camera_uniform().binds(*state.camera_uniform().uniform(), CAMERA_LAYOUT_LABEL),
            state.mesh().holds(quad_vertices(), quad_indices()),
            state.mesh().num_indices() == 6,
            state.camera().position@ == seq![
                CAMERA_POSITION_X,
                CAMERA_POSITION_Y,
                CAMERA_POSITION_Z,
            ],
            state.camera().yaw == CAMERA_YAW,
            state.camera().pitch == CAMERA_PITCH,
            state.projection().fovy() == FOVY,
            state.projection().znear() == ZNEAR,
            state.projection().zfar() == ZFAR,
            state.projection().aspect_is(size.width, size.height),
            state.controller() == (ControllerView {
                held: Held {
                    forward: false,
                    backward: false,
                    left: false,
                    right: false,
                    up: false,
                    down: false,
                },
                look: Seq::empty(),
                scroll: Seq::empty(),
                speed: CAMERA_SPEED,
                sensitivity: CAMERA_SENSITIVITY,
            }),
            !state.mouse_lock(),
            state.start_render_time() == now,
            state.last_render_time() == now,
    {
        let surface_config = SurfaceConfiguration::new(format, size);

        let system_bind_group_layout = BindGroupLayoutDescriptor::uniform_block(
            SYSTEM_LAYOUT_LABEL,
        );
        let system_uniform = SystemUniform::new(size, time).make_binding(
            &system_bind_group_layout,
        );

        let camera_bind_group_layout = BindGroupLayoutDescriptor::uniform_block(
            CAMERA_LAYOUT_LABEL,
        );
        let camera_uniform = CameraUniform::new().make_binding(&camera_bind_group_layout);

        let shader = compile_shader(source);
        let mut bind_group_layouts: Vec<BindGroupLayoutDescriptor> = Vec::new();
        bind_group_layouts.push(system_bind_group_layout);
        bind_group_layouts.push(camera_bind_group_layout);
        let push_constant_ranges: Vec<PushConstantRange> = Vec::new();
        let render_pipeline_layout = PipelineLayoutDescriptor {
            label: "Render Pipeline Layout",
            bind_group_layouts,
            push_constant_ranges,
        };
        let mut vertex_layouts: Vec<VertexBufferLayout> = Vec::new();
        vertex_layouts.push(QuadVertex::desc());
        let render_pipeline = create_pipeline(
            &render_pipeline_layout,
            surface_config.format,
            None,
            vertex_layouts,
            shader,
        );

        let mesh = QuadVertex::new().make_binding();

        let camera = Camera::new(
            [CAMERA_POSITION_X, CAMERA_POSITION_Y, CAMERA_POSITION_Z],
            CAMERA_YAW,
            CAMERA_PITCH,
        );
        let projection = Projection::new(size.width, size.height, FOVY, ZNEAR, ZFAR);
        let camera_controller = CameraController::new(CAMERA_SPEED, CAMERA_SENSITIVITY);

        State {
            surface_config,
            render_pipeline,
            render_pipeline_layout,
            mesh,
            size,
            start_render_time: now,
            last_render_time: now,
            mouse_lock: false,
            camera,
            projection,
            camera_controller,
            system_uniform,
            camera_uniform,
        }
    }

    #[verifier::when_used_as_spec(spec_surface_config)]
    pub fn surface_config(&self) -> (config: &SurfaceConfiguration)
        ensures
            config == self.surface_config(),
    {
        &self.surface_config
    }

    #[verifier::when_used_as_spec(spec_render_pipeline)]
    pub fn render_pipeline(&self) -> (pipeline: &RenderPipelineDescriptor)
        ensures
            pipeline == self.render_pipeline(),
    {
        &self.render_pipeline
    }

    #[verifier::when_used_as_spec(spec_render_pipeline_layout)]
    pub fn render_pipeline_layout(&self) -> (layout: &PipelineLayoutDescriptor)
        ensures
            layout == self.render_pipeline_layout(),
    {
        &self.render_pipeline_layout
    }

    #[verifier::when_used_as_spec(spec_mesh)]
    pub fn mesh(&self) -> (mesh: &VertexBinding)
        ensures
            mesh == self.mesh(),
    {
        &self.mesh
    }

    /// The size of the surface as the state knows it.
    #[verifier::when_used_as_spec(spec_current_size)]
    pub fn current_size(&self) -> (size: PhysicalSize)
        ensures
            size == self.current_size(),
    {
        self.size
    }

    #[verifier::when_used_as_spec(spec_start_render_time)]
    pub fn start_render_time(&self) -> (start: Instant)
        ensures
            start == self.start_render_time(),
    {
        self.start_render_time
    }

    #[verifier::when_used_as_spec(spec_last_render_time)]
    pub fn last_render_time(&self) -> (last: Instant)
        ensures
            last == self.last_render_time(),
    {
        self.last_render_time
    }

    /// Whether motions of the mouse turn the camera: true while the left
    /// button is held.
    #[verifier::when_used_as_spec(spec_mouse_lock)]
    pub fn mouse_lock(&self) -> (locked: bool)
        ensures
            locked == self.mouse_lock(),
    {
        self.mouse_lock
    }

    #[verifier::when_used_as_spec(spec_camera)]
    pub fn camera(&self) -> (camera: &Camera)
        ensures
            camera == self.camera(),
    {
        &self.camera
    }

    #[verifier::when_used_as_spec(spec_projection)]
    pub fn projection(&self) -> (projection: &Projection)
        ensures
            projection == self.projection(),
    {
        &self.projection
    }

    #[verifier::when_used_as_spec(spec_system_uniform)]
    pub fn system_uniform(&self) -> (binding: &UniformBinding<SystemUniform>)
        ensures
            binding == self.system_uniform(),
    {
        &self.system_uniform
    }

    #[verifier::when_used_as_spec(spec_camera_uniform)]
    pub fn camera_uniform(&self) -> (binding: &UniformBinding<CameraUniform>)
        ensures
            binding == self.camera_uniform(),
    {
        &self.camera_uniform
    }

    /// Builds the pipeline anew from other shader text. The pipeline layout,
    /// the bind groups and the buffers are not touched.
    pub fn recompile(&mut self, source: &str)
        requires
            old(self).wf(),
        ensures
            final(self).wf(),
            final(self).pipeline_is(source@),
            final(self).same_resources(old(self)),
            final(self).surface_config() == old(self).surface_config(),
            final(self).current_size() == old(self).current_size(),
            final(self).last_render_time() == old(self).last_render_time(),
            final(self).mouse_lock() == old(self).mouse_lock(),
            final(self).camera() == old(self).camera(),
            final(self).projection() == old(self).projection(),
            final(self).controller() == old(self).controller(),
            final(self).system_uniform() == old(self).system_uniform(),
            final(self).camera_uniform() == old(self).camera_uniform(),
    {
        let mut vertex_layouts: Vec<VertexBufferLayout> = Vec::new();
        vertex_layouts.push(QuadVertex::desc());
        self.render_pipeline = create_pipeline(
            &self.render_pipeline_layout,
            self.surface_config.format,
            None,
            vertex_layouts,
            compile_shader(source),
        );
    }

    /// Takes a new size of the surface. A size with a zero side, as a
    /// minimized window reports it, is ignored: nothing changes and there is
    /// nothing to configure. Any other size becomes the current size, the
    /// size of the surface configuration and the aspect ratio of the
    /// projection; the configuration to apply to the surface is returned.
    pub fn resize(&mut self, new_size: PhysicalSize) -> (configure: Option<SurfaceConfiguration>)
        requires
            old(self).wf(),
        ensures
            final(self).wf(),
            !new_size.is_drawable() ==> configure is None && *final(self) == *old(self),
            new_size.is_drawable() ==> {
                &&& configure == Some(*final(self).surface_config())
                &&& final(self).current_size() == new_size
                &&& final(self).surface_config().spec_size() == new_size
                &&& final(self).projection().aspect_is(new_size.width, new_size.height)
            },
            final(self).same_resources(old(self)),
            final(self).projection().fovy() == old(self).projection().fovy(),
            final(self).projection().znear() == old(self).projection().znear(),
            final(self).projection().zfar() == old(self).projection().zfar(),
            final(self).render_pipeline() == old(self).render_pipeline(),
            final(self).last_render_time() == old(self).last_render_time(),
            final(self).mouse_lock() == old(self).mouse_lock(),
            final(self).camera() == old(self).camera(),
            final(self).controller() == old(self).controller(),
            final(self).system_uniform() == old(self).system_uniform(),
            final(self).camera_uniform() == old(self).camera_uniform(),
    {
        if new_size.width > 0 && new_size.height > 0 {
            self.size = new_size;
            self.surface_config.width = new_size.width;
            self.surface_config.height = new_size.height;
            self.projection.resize(new_size.width, new_size.height);
            Some(self.surface_config)
        } else {
            None
        }
    }

    /// Takes a motion of the mouse. It is queued for the camera while the
    /// mouse is locked, and dropped otherwise.
    pub fn handle_mouse_input(&mut self, x: u64, y: u64)
        ensures
            old(self).mouse_lock() ==> final(self).controller() == old(self).controller().after_mouse(
                MouseDelta { dx: x, dy: y },
            ),
            !old(self).mouse_lock() ==> *final(self) == *old(self),
            final(self).wf() == old(self).wf(),
            final(self).same_resources(old(self)),
            final(self).surface_config() == old(self).surface_config(),
            final(self).render_pipeline() == old(self).render_pipeline(),
            final(self).current_size() == old(self).current_size(),
            final(self).last_render_time() == old(self).last_render_time(),
            final(self).mouse_lock() == old(self).mouse_lock(),
            final(self).camera() == old(self).camera(),
            final(self).projection() == old(self).projection(),
            final(self).system_uniform() == old(self).system_uniform(),
            final(self).camera_uniform() == old(self).camera_uniform(),
    {
        if self.mouse_lock {
            self.camera_controller.process_mouse(x, y);
        }
    }

    /// Whether the renderer takes an event of the window for itself: a key
    /// that stands for a direction, any turn of the wheel, and the left
    /// mouse button.
    pub open spec fn consumes(event: WindowEvent) -> bool {
        match event {
            WindowEvent::KeyboardInput { key: Some(key), .. } =>
                crate::camera::controller::spec_direction_of(key).is_some(),
            WindowEvent::MouseWheel { .. } => true,
            WindowEvent::MouseInput { button: MouseButton::Left, .. } => true,
            _ => false,
        }
    }

    /// What the camera controller holds after an event of the window.
    pub open spec fn controller_after(controller: ControllerView, event: WindowEvent)
        -> ControllerView {
        match event {
            WindowEvent::KeyboardInput { key: Some(key), state } => controller.after_key(
                key,
                state,
            ),
            WindowEvent::MouseWheel { delta } => controller.after_scroll(delta),
            _ => controller,
        }
    }

    /// Whether the mouse is locked after an event of the window: the left
    /// button locks it while it is down.
    pub open spec fn mouse_lock_after(locked: bool, event: WindowEvent) -> bool {
        match event {
            WindowEvent::MouseInput { button: MouseButton::Left, state } => state
                == ElementState::Pressed,
            _ => locked,
        }
    }

    /// Takes an event of the window. Keys go to the camera controller,
    /// which says whether it knows them; a turn of the wheel is queued for
    /// the camera; the left mouse button locks and unlocks the mouse.
    /// Returns whether the event was taken, so that the caller handles the
    /// others itself.
    pub fn handle_input(&mut self, event: &WindowEvent) -> (consumed: bool)
        ensures
            consumed == Self::consumes(*event),
            final(self).controller() == Self::controller_after(old(self).controller(), *event),
            final(self).mouse_lock() == Self::mouse_lock_after(old(self).mouse_lock(), *event),
            !consumed ==> *final(self) == *old(self),
            final(self).wf() == old(self).wf(),
            final(self).same_resources(old(self)),
            final(self).surface_config() == old(self).surface_config(),
            final(self).render_pipeline() == old(self).render_pipeline(),
            final(self).current_size() == old(self).current_size(),
            final(self).last_render_time() == old(self).last_render_time(),
            final(self).camera() == old(self).camera(),
            final(self).projection() == old(self).projection(),
            final(self).system_uniform() == old(self).system_uniform(),
            final(self).camera_uniform() == old(self).camera_uniform(),
    {
        match event {
            WindowEvent::KeyboardInput { key: Some(key), state } => {
                self.camera_controller.process_keyboard(*key, *state)
            },
            WindowEvent::MouseWheel { delta } => {
                self.camera_controller.process_scroll(delta);
                true
            },
            WindowEvent::MouseInput { button: MouseButton::Left, state } => {
                self.mouse_lock = match state {
                    ElementState::Pressed => true,
                    ElementState::Released => false,
                };
                true
            },
            _ => false,
        }
    }

    /// First half of a frame's update, at the clock's reading `now`: takes
    /// out of the camera controller all that has arrived since the last
    /// frame and hands it out as the step to move the camera by, over the
    /// time since the last frame, to the microsecond. `now` becomes the time of the last frame.
    pub fn update(&mut self, now: Instant) -> (step: CameraStep)
        ensures
            step.is_tick_of(old(self).controller(), *old(self).camera(), step.elapsed),
            step.elapsed == Duration::spec_from_micros(
                micros_between(now, old(self).last_render_time()) as u64,
            ),
            step.elapsed.wf(),
            step.elapsed.is_micros(micros_between(now, old(self).last_render_time())),
            step.elapsed.spec_as_micros() == micros_between(now, old(self).last_render_time()),
            final(self).controller() == old(self).controller().after_tick(),
            final(self).last_render_time() == now,
            final(self).wf() == old(self).wf(),
            final(self).same_resources(old(self)),
            final(self).surface_config() == old(self).surface_config(),
            final(self).render_pipeline() == old(self).render_pipeline(),
            final(self).current_size() == old(self).current_size(),
            final(self).mouse_lock() == old(self).mouse_lock(),
            final(self).camera() == old(self).camera(),
            final(self).projection() == old(self).projection(),
            final(self).system_uniform() == old(self).system_uniform(),
            final(self).camera_uniform() == old(self).camera_uniform(),
    {
        let elapsed = now.duration_since(self.last_render_time);
        let step = self.camera_controller.update_camera(&self.camera, elapsed);
        self.last_render_time = now;
        step
    }

    /// Second half of a frame's update: takes the camera as the step has
    /// moved it, the matrix from world to clip space that belongs to it, and
    /// the seconds since the start as a 32-bit float. The camera parameters
    /// become the camera's position and that matrix, the frame-wide
    /// parameters the time and the current size.
    pub fn write_uniforms(&mut self, camera: Camera, view_proj: [[u32; 4]; 4], time: u32)
        requires
            old(self).wf(),
        ensures
            final(self).wf(),
            *final(self).camera() == camera,
            final(self).camera_uniform().uniform().view_position@ == seq![
                camera.position@[0],
                camera.position@[1],
                camera.position@[2],
                crate::camera::F_ONE,
            ],
            final(self).camera_uniform().uniform().view_proj == view_proj,
            final(self).system_uniform().uniform().time == time,
            final(self).system_uniform().uniform().resolution@ == seq![
                old(self).current_size().width,
                old(self).current_size().height,
            ],
            final(self).same_resources(old(self)),
            final(self).surface_config() == old(self).surface_config(),
            final(self).render_pipeline() == old(self).render_pipeline(),
            final(self).current_size() == old(self).current_size(),
            final(self).last_render_time() == old(self).last_render_time(),
            final(self).mouse_lock() == old(self).mouse_lock(),
            final(self).projection() == old(self).projection(),
            final(self).controller() == old(self).controller(),
    {
        self.camera = camera;
        self.camera_uniform.uniform_mut().update_view_proj(camera.position, view_proj);
        let size = self.size;
        self.system_uniform.uniform_mut().update_system(size, time);
    }

    /// The writes that bring the two buffers of parameters up to date, the
    /// frame-wide parameters first. Each write starts at the first byte of
    /// its buffer and fills the buffer exactly.
    pub fn uploads(&self) -> (writes: Vec<BufferWrite<'_>>)
        requires
            self.wf(),
        ensures
            writes@.len() == 2,
            writes@[0].buffer == self.system_uniform().buffer(),
            writes@[0].offset == 0,
            is_memory_image(self.system_uniform().uniform().layout(), writes@[0].data@),
            writes@[0].data@.len() == 32,
            writes@[0].data@.len() == self.system_uniform().buffer().contents@.len(),
            writes@[1].buffer == self.camera_uniform().buffer(),
            writes@[1].offset == 0,
            is_memory_image(self.camera_uniform().uniform().layout(), writes@[1].data@),
            writes@[1].data@.len() == 80,
            writes@[1].data@.len() == self.camera_uniform().buffer().contents@.len(),
    {
        let mut writes: Vec<BufferWrite<'_>> = Vec::new();
        writes.push(
            BufferWrite {
                buffer: self.system_uniform.buffer(),
                offset: 0,
                data: self.system_uniform.uniform().bytes(),
            },
        );
        writes.push(
            BufferWrite {
                buffer: self.camera_uniform.buffer(),
                offset: 0,
                data: self.camera_uniform.uniform().bytes(),
            },
        );
        writes
    }

    /// The commands of a frame's render pass: the pipeline, the frame-wide
    /// parameters as group 0, the camera parameters as group 1, and the mesh
    /// drawn once.
    pub open spec fn frame_commands(&self) -> Seq<RenderCommand<'_>> {
        seq![
            RenderCommand::SetPipeline(self.render_pipeline()),
            RenderCommand::SetBindGroup { index: 0, bind_group: self.system_uniform().bind_group() },
            RenderCommand::SetBindGroup { index: 1, bind_group: self.camera_uniform().bind_group() },
        ] + mesh_commands(self.mesh())
    }

    /// Says what to encode for a frame, given how asking the surface for the
    /// frame went. Without a frame there is nothing to encode, and the error
    /// is handed back as it came. With a frame, one render pass clears it to
    /// the background and draws the mesh.
    pub fn render(&self, acquired: Result<(), SurfaceError>) -> (frame: Result<
        Frame<'_>,
        SurfaceError,
    >)
        ensures
            acquired matches Err(error) ==> frame == Err::<Frame<'_>, SurfaceError>(error),
            acquired is Ok ==> (frame matches Ok(f) && {
                &&& f.encoder_label == "Render Encoder"
                &&& f.debug_group == "rendering passes"
                &&& f.render_pass.spec_descriptor().label == "Render Pass"
                &&& f.render_pass.spec_descriptor().color_attachments@ == seq![
                    Some(
                        RenderPassColorAttachment {
                            ops: Operations { load: LoadOp::Clear(background()), store: true },
                        },
                    ),
                ]
                &&& f.render_pass.spec_commands() == self.frame_commands()
            }),
    {
        match acquired {
            Err(error) => Err(error),
            Ok(_) => {
                let mut color_attachments: Vec<Option<RenderPassColorAttachment>> = Vec::new();
                color_attachments.push(
                    Some(
                        RenderPassColorAttachment {
                            ops: Operations {
                                load: LoadOp::Clear(
                                    Color {
                                        r: 0x3FB9_9999_9999_999A,
                                        g: 0x3FC9_9999_9999_999A,
                                        b: 0x3FD3_3333_3333_3333,
                                        a: 0x3FF0_0000_0000_0000,
                                    },
                                ),
                                store: true,
                            },
                        },
                    ),
                );
                let mut render_pass = RenderPass::begin(
                    RenderPassDescriptor { label: "Render Pass", color_attachments },
                );
                render_pass.set_pipeline(&self.render_pipeline);
                render_pass.set_bind_group(0, self.system_uniform.bind_group());
                render_pass.set_bind_group(1, self.camera_uniform.bind_group());
                render_pass.draw_mesh(&self.mesh);
                assert(render_pass.spec_commands() =~= self.frame_commands());
                Ok(
                    Frame {
                        encoder_label: "Render Encoder",
                        debug_group: "rendering passes",
                        render_pass,
                    },
                )
            },
        }
    }
}

} // verus!
