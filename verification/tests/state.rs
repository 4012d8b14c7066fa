use shader_canvas::camera::controller::CameraStep;
use shader_canvas::event_loop::{on_event, on_window_event, recover, Action, Target};
use shader_canvas::geometry::IndexFormat;
use shader_canvas::input::{
    ElementState, Event, Key, MouseButton, MouseDelta, MouseScrollDelta, WindowEvent,
};
use shader_canvas::pass::{
    Color, LoadOp, Operations, RenderCommand, RenderPassColorAttachment,
};
use shader_canvas::pipeline::{
    BlendComponent, BlendState, ColorTargetState, ColorWrites, Face, FrontFace, PolygonMode,
    PrimitiveTopology,
};
use shader_canvas::state::{State, SurfaceError};
use shader_canvas::surface::{
    preferred_format, CompositeAlphaMode, PhysicalSize, PresentMode, SurfaceConfiguration,
    TextureUsages,
};
use shader_canvas::time::Instant;
use wgpu::TextureFormat;

const SHADER: &str = "@vertex fn vs_main() {} @fragment fn fs_main() {}";

fn start() -> State {
    State::new(
        SHADER,
        PhysicalSize::new(1024, 768),
        TextureFormat::Bgra8UnormSrgb,
        Instant(5_000_000),
        0.0f32.to_bits(),
    )
}

fn key(key: Key, state: ElementState) -> WindowEvent {
    WindowEvent::KeyboardInput { key: Some(key), state }
}

fn click(state: ElementState) -> WindowEvent {
    WindowEvent::MouseInput { button: MouseButton::Left, state }
}

fn tick(state: &mut State, now: u64) -> CameraStep {
    state.update(Instant(now))
}

#[test]
fn new_state_has_the_fixed_start() {
    let state = start();
    assert_eq!(state.current_size(), PhysicalSize::new(1024, 768));
    assert_eq!(
        *state.surface_config(),
        SurfaceConfiguration {
            usage: TextureUsages { render_attachment: true, ..TextureUsages::empty() },
            format: TextureFormat::Bgra8UnormSrgb,
            width: 1024,
            height: 768,
            present_mode: PresentMode::Fifo,
            alpha_mode: CompositeAlphaMode::Auto,
        }
    );
    assert!(!state.mouse_lock());
    assert_eq!(state.start_render_time(), Instant(5_000_000));
    assert_eq!(state.last_render_time(), Instant(5_000_000));

    let camera = state.camera();
    assert_eq!(camera.position, [0.0f32.to_bits(), 5.0f32.to_bits(), 10.0f32.to_bits()]);
    assert_eq!(camera.yaw, cgmath::Rad::from(cgmath::Deg(-90.0f32)).0.to_bits());
    assert_eq!(camera.pitch, cgmath::Rad::from(cgmath::Deg(-20.0f32)).0.to_bits());

    let projection = state.projection();
    assert_eq!(projection.aspect_width(), 1024);
    assert_eq!(projection.aspect_height(), 768);
    assert_eq!(projection.fovy(), cgmath::Rad::from(cgmath::Deg(45.0f32)).0.to_bits());
    assert_eq!(projection.znear(), 0.1f32.to_bits());
    assert_eq!(projection.zfar(), 100.0f32.to_bits());

    assert_eq!(state.system_uniform().uniform().resolution, [1024, 768]);
    assert_eq!(state.system_uniform().bind_group().layout, "Time Buffer Bind Group Layout");
    assert_eq!(state.camera_uniform().bind_group().layout, "Camera Buffer Bind Group Layout");
    assert_eq!(state.mesh().num_indices(), 6);
}

#[test]
fn new_state_describes_layout_and_pipeline() {
    let state = start();
    let layout = state.render_pipeline_layout();
    assert_eq!(layout.label, "Render Pipeline Layout");
    assert_eq!(layout.bind_group_layouts.len(), 2);
    assert_eq!(layout.bind_group_layouts[0].label, "Time Buffer Bind Group Layout");
    assert_eq!(layout.bind_group_layouts[1].label, "Camera Buffer Bind Group Layout");
    assert_eq!(layout.bind_group_layouts[0].entries.len(), 1);
    assert_eq!(layout.bind_group_layouts[0].entries, layout.bind_group_layouts[1].entries);
    assert!(layout.push_constant_ranges.is_empty());

    let pipeline = state.render_pipeline();
    assert_eq!(pipeline.label, "Render Pipeline");
    assert_eq!(pipeline.layout, Some("Render Pipeline Layout"));
    assert_eq!(pipeline.shader.label, "Shader");
    assert_eq!(pipeline.shader.source, SHADER);
    assert_eq!(pipeline.vertex.entry_point, "vs_main");
    assert_eq!(pipeline.vertex.buffers.len(), 1);
    assert_eq!(pipeline.vertex.buffers[0].array_stride, 20);
    let fragment = pipeline.fragment.as_ref().unwrap();
    assert_eq!(fragment.entry_point, "fs_main");
    assert_eq!(
        fragment.targets,
        vec![Some(ColorTargetState {
            format: TextureFormat::Bgra8UnormSrgb,
            blend: Some(BlendState {
                color: BlendComponent::replace(),
                alpha: BlendComponent::replace(),
            }),
            write_mask: ColorWrites::all(),
        })]
    );
    assert_eq!(pipeline.primitive.topology, PrimitiveTopology::TriangleList);
    assert_eq!(pipeline.primitive.front_face, FrontFace::Ccw);
    assert_eq!(pipeline.primitive.cull_mode, Some(Face::Back));
    assert_eq!(pipeline.primitive.polygon_mode, PolygonMode::Fill);
    assert_eq!(pipeline.primitive.strip_index_format, None);
    assert!(!pipeline.primitive.unclipped_depth && !pipeline.primitive.conservative);
    assert_eq!(pipeline.depth_stencil, None);
    assert_eq!(pipeline.multisample.count, 1);
    assert_eq!(pipeline.multisample.mask, !0u64);
    assert!(!pipeline.multisample.alpha_to_coverage_enabled);
    assert_eq!(pipeline.multiview, None);
}

#[test]
fn first_supported_format_is_preferred() {
    let supported = [TextureFormat::Rgba8UnormSrgb, TextureFormat::Bgra8Unorm];
    assert_eq!(preferred_format(&supported), Some(TextureFormat::Rgba8UnormSrgb));
    assert_eq!(preferred_format(&[]), None);
}

#[test]
fn recompile_replaces_only_the_shader() {
    let mut state = start();
    let layout_before = format!("{:?}", state.render_pipeline_layout());
    let mesh_before = format!("{:?}", state.mesh());
    state.recompile("// another shader");
    assert_eq!(state.render_pipeline().shader.source, "// another shader");
    assert_eq!(state.render_pipeline().label, "Render Pipeline");
    assert_eq!(state.render_pipeline().layout, Some("Render Pipeline Layout"));
    assert_eq!(format!("{:?}", state.render_pipeline_layout()), layout_before);
    assert_eq!(format!("{:?}", state.mesh()), mesh_before);
    assert_eq!(state.current_size(), PhysicalSize::new(1024, 768));
}

#[test]
fn resize_to_a_zero_side_changes_nothing() {
    for size in [(0, 600), (800, 0), (0, 0)] {
        let mut state = start();
        let before = *state.surface_config();
        let projection = *state.projection();
        assert_eq!(state.resize(PhysicalSize::new(size.0, size.1)), None);
        assert_eq!(state.current_size(), PhysicalSize::new(1024, 768));
        assert_eq!(*state.surface_config(), before);
        assert_eq!(*state.projection(), projection);
    }
}

#[test]
fn resize_sets_size_configuration_and_aspect() {
    let mut state = start();
    let configure = state.resize(PhysicalSize::new(800, 600));
    let config = configure.unwrap();
    assert_eq!(config, *state.surface_config());
    assert_eq!((config.width, config.height), (800, 600));
    assert_eq!(config.format, TextureFormat::Bgra8UnormSrgb);
    assert_eq!(config.present_mode, PresentMode::Fifo);
    assert_eq!(state.current_size(), PhysicalSize::new(800, 600));
    let projection = state.projection();
    let aspect = projection.aspect_width() as f32 / projection.aspect_height() as f32;
    assert_eq!(aspect, 800.0f32 / 600.0f32);
    assert_eq!(projection.fovy(), cgmath::Rad::from(cgmath::Deg(45.0f32)).0.to_bits());
}

#[test]
fn mouse_moves_the_camera_only_while_locked() {
    let mut state = start();
    state.handle_mouse_input(3.0f64.to_bits(), 4.0f64.to_bits());
    let step = tick(&mut state, 5_000_000);
    assert!(step.look.is_empty());

    assert!(state.handle_input(&click(ElementState::Pressed)));
    assert!(state.mouse_lock());
    state.handle_mouse_input(3.0f64.to_bits(), 4.0f64.to_bits());
    assert!(state.handle_input(&click(ElementState::Released)));
    assert!(!state.mouse_lock());
    state.handle_mouse_input(9.0f64.to_bits(), 9.0f64.to_bits());
    let step = tick(&mut state, 5_000_000);
    assert_eq!(step.look, vec![MouseDelta { dx: 3.0f64.to_bits(), dy: 4.0f64.to_bits() }]);
}

#[test]
fn mouse_motion_is_applied_once() {
    let mut state = start();
    state.handle_input(&click(ElementState::Pressed));
    let deltas = [(1.5f64, -2.0f64), (0.25, 0.75), (-4.0, 8.0)];
    for (dx, dy) in deltas {
        state.handle_mouse_input(dx.to_bits(), dy.to_bits());
    }
    let first = tick(&mut state, 5_016_000);
    let sensitivity = f32::from_bits(first.sensitivity);
    assert_eq!(sensitivity, 0.4);
    let mut yaw = 0.0f32;
    let mut pitch = 0.0f32;
    for delta in &first.look {
        yaw += f64::from_bits(delta.dx) as f32;
        pitch += f64::from_bits(delta.dy) as f32;
    }
    assert_eq!(first.look.len(), 3);
    assert_eq!(sensitivity * yaw, 0.4 * (1.5 + 0.25 - 4.0));
    assert_eq!(sensitivity * pitch, 0.4 * (-2.0 + 0.75 + 8.0));

    let second = tick(&mut state, 5_032_000);
    assert!(second.look.is_empty());
    assert!(second.scroll.is_empty());
}

#[test]
fn handle_input_says_what_it_took() {
    let mut state = start();
    assert!(state.handle_input(&key(Key::W, ElementState::Pressed)));
    assert!(state.handle_input(&key(Key::LShift, ElementState::Released)));
    assert!(!state.handle_input(&key(Key::Escape, ElementState::Pressed)));
    assert!(!state.handle_input(&key(Key::Other, ElementState::Pressed)));
    assert!(!state.handle_input(&WindowEvent::KeyboardInput {
        key: None,
        state: ElementState::Pressed
    }));
    assert!(state.handle_input(&WindowEvent::MouseWheel {
        delta: MouseScrollDelta::LineDelta(0.0f32.to_bits(), 1.0f32.to_bits())
    }));
    assert!(state.handle_input(&click(ElementState::Pressed)));
    assert!(!state.handle_input(&WindowEvent::MouseInput {
        button: MouseButton::Right,
        state: ElementState::Pressed
    }));
    assert!(!state.mouse_lock() || state.mouse_lock());
    assert!(!state.handle_input(&WindowEvent::CloseRequested));
    assert!(!state.handle_input(&WindowEvent::Resized(PhysicalSize::new(1, 1))));
    assert!(!state.handle_input(&WindowEvent::Other));

    let step = tick(&mut state, 5_000_000);
    assert_eq!(step.forward, 1);
    assert_eq!(step.up, 0);
    assert_eq!(
        step.scroll,
        vec![MouseScrollDelta::LineDelta(0.0f32.to_bits(), 1.0f32.to_bits())]
    );
}

#[test]
fn update_measures_time_since_the_last_frame() {
    let mut state = start();
    let step = tick(&mut state, 5_250_000);
    assert_eq!(step.elapsed.as_micros(), 250_000);
    assert_eq!(step.elapsed.as_secs(), 0);
    assert_eq!(step.elapsed.subsec_nanos(), 250_000_000);
    assert_eq!(state.last_render_time(), Instant(5_250_000));
    let step = tick(&mut state, 6_250_000);
    assert_eq!(step.elapsed.as_micros(), 1_000_000);
    let step = tick(&mut state, 6_000_000);
    assert_eq!(step.elapsed.as_micros(), 0);
    assert_eq!((step.elapsed.as_secs(), step.elapsed.subsec_nanos()), (0, 0));
    assert_eq!(state.last_render_time(), Instant(6_000_000));
    assert_eq!(step.camera, *state.camera());
}

#[test]
fn uniforms_follow_camera_time_and_size() {
    let mut state = start();
    state.resize(PhysicalSize::new(800, 600));
    let mut camera = *state.camera();
    camera.position = [1.0f32.to_bits(), 2.0f32.to_bits(), 3.0f32.to_bits()];
    camera.yaw = 0.5f32.to_bits();
    let mut matrix = [[0u32; 4]; 4];
    matrix[2][3] = 7.0f32.to_bits();
    state.write_uniforms(camera, matrix, 2.5f32.to_bits());
    assert_eq!(*state.camera(), camera);
    assert_eq!(state.system_uniform().uniform().time, 2.5f32.to_bits());
    assert_eq!(state.system_uniform().uniform().resolution, [800, 600]);
    assert_eq!(
        state.camera_uniform().uniform().view_position,
        [1.0f32.to_bits(), 2.0f32.to_bits(), 3.0f32.to_bits(), 1.0f32.to_bits()]
    );
    assert_eq!(state.camera_uniform().uniform().view_proj, matrix);

    let writes = state.uploads();
    assert_eq!(writes.len(), 2);
    assert_eq!(writes[0].buffer.label, "System Buffer");
    assert_eq!(writes[0].offset, 0);
    assert_eq!(writes[0].data.len(), 32);
    assert_eq!(&writes[0].data[0..4], &2.5f32.to_ne_bytes());
    assert_eq!(&writes[0].data[16..20], &800u32.to_ne_bytes());
    assert_eq!(&writes[0].data[20..24], &600u32.to_ne_bytes());
    assert_eq!(writes[1].buffer.label, "Camera Buffer");
    assert_eq!(writes[1].offset, 0);
    assert_eq!(writes[1].data.len(), 80);
    assert_eq!(&writes[1].data[0..4], &1.0f32.to_ne_bytes());
    assert_eq!(&writes[1].data[16 + 4 * 11..16 + 4 * 12], &7.0f32.to_ne_bytes());
}

#[test]
fn a_frame_clears_binds_and_draws_once() {
    let state = start();
    let frame = state.render(Ok(())).unwrap();
    assert_eq!(frame.encoder_label, "Render Encoder");
    assert_eq!(frame.debug_group, "rendering passes");
    let pass = frame.render_pass;
    assert_eq!(pass.descriptor().label, "Render Pass");
    assert_eq!(
        pass.descriptor().color_attachments,
        vec![Some(RenderPassColorAttachment {
            ops: Operations {
                load: LoadOp::Clear(Color {
                    r: 0.1f64.to_bits(),
                    g: 0.2f64.to_bits(),
                    b: 0.3f64.to_bits(),
                    a: 1.0f64.to_bits(),
                }),
                store: true,
            },
        })]
    );
    let commands = pass.commands();
    assert_eq!(commands.len(), 6);
    assert_eq!(commands[0], RenderCommand::SetPipeline(state.render_pipeline()));
    assert_eq!(
        commands[1],
        RenderCommand::SetBindGroup { index: 0, bind_group: state.system_uniform().bind_group() }
    );
    assert_eq!(
        commands[2],
        RenderCommand::SetBindGroup { index: 1, bind_group: state.camera_uniform().bind_group() }
    );
    assert_eq!(
        commands[3],
        RenderCommand::SetVertexBuffer { slot: 0, buffer: state.mesh().vertex_buffer() }
    );
    assert_eq!(
        commands[4],
        RenderCommand::SetIndexBuffer {
            buffer: state.mesh().index_buffer(),
            index_format: IndexFormat::Uint32
        }
    );
    assert_eq!(
        commands[5],
        RenderCommand::DrawIndexed { indices: 0..6, base_vertex: 0, instances: 0..1 }
    );
}

#[test]
fn no_frame_nothing_to_encode() {
    let state = start();
    for error in [
        SurfaceError::Timeout,
        SurfaceError::Outdated,
        SurfaceError::Lost,
        SurfaceError::OutOfMemory,
    ] {
        match state.render(Err(error)) {
            Err(back) => assert_eq!(back, error),
            Ok(_) => panic!("a frame without a surface texture"),
        }
    }
}

#[test]
fn surface_errors_are_told_apart() {
    for error in [SurfaceError::Lost, SurfaceError::Outdated] {
        let mut state = start();
        state.resize(PhysicalSize::new(640, 480));
        let before = *state.surface_config();
        let action = recover(&mut state, error);
        assert_eq!(action, Action::Configure(before));
        assert_eq!(state.current_size(), PhysicalSize::new(640, 480));
        assert_eq!(*state.surface_config(), before);
    }
    let mut state = start();
    assert_eq!(recover(&mut state, SurfaceError::OutOfMemory), Action::Exit);
    assert_eq!(recover(&mut state, SurfaceError::Timeout), Action::Warn);
    assert_eq!(state.current_size(), PhysicalSize::new(1024, 768));
}

#[test]
fn the_loop_handles_what_the_renderer_leaves() {
    let mut state = start();
    assert_eq!(on_event(&mut state, &Event::MainEventsCleared, Target::Native), Action::RequestRedraw);
    assert_eq!(on_event(&mut state, &Event::RedrawRequested, Target::Native), Action::Redraw);
    assert_eq!(on_event(&mut state, &Event::Other, Target::Native), Action::Poll);
    assert_eq!(
        on_event(
            &mut state,
            &Event::MouseMotion(MouseDelta { dx: 0, dy: 0 }),
            Target::Native
        ),
        Action::Poll
    );

    let escape = key(Key::Escape, ElementState::Pressed);
    assert_eq!(on_window_event(&mut state, &escape, Target::Native), Action::Exit);
    assert_eq!(on_window_event(&mut state, &escape, Target::Web), Action::Poll);
    let released = key(Key::Escape, ElementState::Released);
    assert_eq!(on_window_event(&mut state, &released, Target::Native), Action::Poll);
    assert_eq!(
        on_window_event(&mut state, &WindowEvent::CloseRequested, Target::Native),
        Action::Exit
    );
    assert_eq!(
        on_window_event(&mut state, &WindowEvent::CloseRequested, Target::Web),
        Action::Poll
    );
    assert_eq!(
        on_window_event(&mut state, &key(Key::W, ElementState::Pressed), Target::Native),
        Action::Poll
    );

    let resized = Event::Window(WindowEvent::Resized(PhysicalSize::new(300, 200)));
    match on_event(&mut state, &resized, Target::Native) {
        Action::Configure(config) => {
            assert_eq!((config.width, config.height), (300, 200));
            assert_eq!(config, *state.surface_config());
        }
        other => panic!("{:?}", other),
    }
    let scaled = WindowEvent::ScaleFactorChanged { new_inner_size: PhysicalSize::new(600, 400) };
    match on_window_event(&mut state, &scaled, Target::Web) {
        Action::Configure(config) => assert_eq!((config.width, config.height), (600, 400)),
        other => panic!("{:?}", other),
    }
    let minimized = WindowEvent::Resized(PhysicalSize::new(0, 0));
    assert_eq!(on_window_event(&mut state, &minimized, Target::Native), Action::Poll);
    assert_eq!(state.current_size(), PhysicalSize::new(600, 400));
}
