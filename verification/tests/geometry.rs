use shader_canvas::binding::{
    BindGroupDescriptor, BindGroupEntry, BindGroupLayoutDescriptor, BindingResource,
    BufferInitDescriptor, BufferUsages,
};
use shader_canvas::geometry::model::{DrawModel, Material, Mesh, Model, ModelVertex};
use shader_canvas::geometry::quad::{DrawQuad, QuadVertex};
use shader_canvas::geometry::{
    IndexFormat, Vertex, VertexAttribute, VertexFormat, VertexStepMode,
};
use shader_canvas::pass::{RenderCommand, RenderPass, RenderPassDescriptor};
use shader_canvas::surface::{PhysicalSize, SurfaceConfiguration};
use shader_canvas::texture::Texture;

fn floats(bytes: &[u8]) -> Vec<f32> {
    bytes.chunks(4).map(|c| f32::from_ne_bytes([c[0], c[1], c[2], c[3]])).collect()
}

fn pass<'a>() -> RenderPass<'a> {
    RenderPass::begin(RenderPassDescriptor { label: "Test Pass", color_attachments: vec![] })
}

fn buffer(label: &'static str) -> BufferInitDescriptor {
    BufferInitDescriptor { label, contents: vec![0; 4], usage: BufferUsages::empty() }
}

fn group(label: &str) -> BindGroupDescriptor {
    BindGroupDescriptor { label: label.to_string(), layout: "Layout", entries: vec![] }
}

fn texture() -> Texture {
    let config = SurfaceConfiguration::new(
        wgpu::TextureFormat::Bgra8UnormSrgb,
        PhysicalSize::new(2, 2),
    );
    Texture::create_depth_texture(&config, "t")
}

fn material(name: &str) -> Material {
    let layout = BindGroupLayoutDescriptor { label: "Material Layout", entries: vec![] };
    Material::new(name, texture(), texture(), &layout)
}

fn mesh(name: &str, num_elements: u32, material: usize) -> Mesh {
    Mesh {
        name: name.to_string(),
        vertex_buffer: buffer("v"),
        index_buffer: buffer("i"),
        num_elements,
        material,
    }
}

#[test]
fn vertex_formats_have_their_sizes() {
    assert_eq!(VertexFormat::Float32.size(), 4);
    assert_eq!(VertexFormat::Float32x2.size(), 8);
    assert_eq!(VertexFormat::Float32x3.size(), 12);
    assert_eq!(VertexFormat::Float32x4.size(), 16);
}

#[test]
fn quad_layout_is_position_then_uv() {
    let layout = QuadVertex::desc();
    assert_eq!(layout.array_stride, 20);
    assert_eq!(layout.step_mode, VertexStepMode::Vertex);
    assert_eq!(
        layout.attributes,
        vec![
            VertexAttribute { format: VertexFormat::Float32x3, offset: 0, shader_location: 0 },
            VertexAttribute { format: VertexFormat::Float32x2, offset: 12, shader_location: 1 },
        ]
    );
}

#[test]
fn quad_is_two_counter_clockwise_triangles() {
    let quad = QuadVertex::new();
    assert_eq!(quad.position, [0, 0, 0]);
    assert_eq!(quad.uv, [0, 0]);
    assert_eq!(quad.get_indices_number(), 6);
    let indices: Vec<u32> = quad
        .get_indices()
        .chunks(4)
        .map(|c| u32::from_ne_bytes([c[0], c[1], c[2], c[3]]))
        .collect();
    assert_eq!(indices, vec![0, 1, 2, 2, 3, 0]);
    let vertices = floats(&quad.get_vertices());
    assert_eq!(
        vertices,
        vec![
            -1.0, -1.0, 0.0, 0.0, 1.0,
            1.0, -1.0, 0.0, 1.0, 1.0,
            1.0, 1.0, 0.0, 1.0, 0.0,
            -1.0, 1.0, 0.0, 0.0, 0.0,
        ]
    );
    for triangle in indices.chunks(3) {
        let at = |i: u32| (vertices[5 * i as usize], vertices[5 * i as usize + 1]);
        let (a, b, c) = (at(triangle[0]), at(triangle[1]), at(triangle[2]));
        let turn = (b.0 - a.0) * (c.1 - a.1) - (b.1 - a.1) * (c.0 - a.0);
        assert!(turn > 0.0);
    }
}

#[test]
fn quad_binding_counts_its_indices() {
    let binding = QuadVertex::new().make_binding();
    assert_eq!(binding.num_indices(), 6);
    assert_eq!(binding.vertex_buffer().label, "Vertex Buffer");
    assert_eq!(binding.vertex_buffer().contents.len(), 80);
    assert_eq!(binding.vertex_buffer().usage, BufferUsages::vertex());
    assert_eq!(binding.index_buffer().label, "Index Buffer");
    assert_eq!(binding.index_buffer().contents.len(), 24);
    assert_eq!(binding.index_buffer().usage, BufferUsages::index());
    assert_eq!(binding.index_buffer().contents, QuadVertex::new().get_indices());
}

#[test]
fn drawing_the_quad_records_three_commands() {
    let binding = QuadVertex::new().make_binding();
    let mut pass = pass();
    DrawQuad::draw_mesh(&mut pass, &binding);
    assert_eq!(
        *pass.commands(),
        vec![
            RenderCommand::SetVertexBuffer { slot: 0, buffer: binding.vertex_buffer() },
            RenderCommand::SetIndexBuffer {
                buffer: binding.index_buffer(),
                index_format: IndexFormat::Uint32
            },
            RenderCommand::DrawIndexed { indices: 0..6, base_vertex: 0, instances: 0..1 },
        ]
    );
    assert_eq!(pass.descriptor().label, "Test Pass");
}

#[test]
fn model_vertex_layout_is_packed() {
    let zero = ModelVertex::new();
    assert_eq!(zero.position, [0; 3]);
    assert_eq!(zero.uv, [0; 2]);
    assert_eq!(zero.normal, [0; 3]);
    assert_eq!(zero.tangent, [0; 3]);
    assert_eq!(zero.bitangent, [0; 3]);
    let layout = ModelVertex::desc();
    assert_eq!(layout.array_stride, 56);
    assert_eq!(layout.step_mode, VertexStepMode::Vertex);
    let offsets: Vec<u64> = layout.attributes.iter().map(|a| a.offset).collect();
    assert_eq!(offsets, vec![0, 12, 20, 32, 44]);
    let locations: Vec<u32> = layout.attributes.iter().map(|a| a.shader_location).collect();
    assert_eq!(locations, vec![0, 1, 2, 3, 4]);
    let mut end = 0;
    for attribute in &layout.attributes {
        assert_eq!(attribute.offset, end);
        end += attribute.format.size();
    }
    assert_eq!(end, layout.array_stride);
    assert_eq!(layout.attributes[1].format, VertexFormat::Float32x2);
}

#[test]
fn material_binds_its_two_textures() {
    let material = material("stone");
    assert_eq!(material.name, "stone");
    assert_eq!(material.bind_group.label, "stone");
    assert_eq!(material.bind_group.layout, "Material Layout");
    assert_eq!(
        material.bind_group.entries,
        vec![
            BindGroupEntry { binding: 0, resource: BindingResource::TextureView { texture: 0 } },
            BindGroupEntry { binding: 1, resource: BindingResource::Sampler { texture: 0 } },
            BindGroupEntry { binding: 2, resource: BindingResource::TextureView { texture: 1 } },
            BindGroupEntry { binding: 3, resource: BindingResource::Sampler { texture: 1 } },
        ]
    );
}

#[test]
fn drawing_a_mesh_binds_material_camera_and_light() {
    let mesh = mesh("m", 36, 0);
    let material = material("stone");
    let (camera, light) = (group("camera"), group("light"));
    let mut pass = pass();
    pass.draw_mesh_instanced(&mesh, &material, 2..5, &camera, &light);
    assert_eq!(
        *pass.commands(),
        vec![
            RenderCommand::SetVertexBuffer { slot: 0, buffer: &mesh.vertex_buffer },
            RenderCommand::SetIndexBuffer {
                buffer: &mesh.index_buffer,
                index_format: IndexFormat::Uint32
            },
            RenderCommand::SetBindGroup { index: 0, bind_group: &material.bind_group },
            RenderCommand::SetBindGroup { index: 1, bind_group: &camera },
            RenderCommand::SetBindGroup { index: 2, bind_group: &light },
            RenderCommand::DrawIndexed { indices: 0..36, base_vertex: 0, instances: 2..5 },
        ]
    );
    let mut once = self::pass();
    DrawModel::draw_mesh(&mut once, &mesh, &material, &camera, &light);
    assert_eq!(
        once.commands()[5],
        RenderCommand::DrawIndexed { indices: 0..36, base_vertex: 0, instances: 0..1 }
    );
}

#[test]
fn drawing_a_model_draws_each_mesh_with_its_material() {
    let model = Model {
        meshes: vec![mesh("a", 3, 1), mesh("b", 6, 0), mesh("c", 9, 1)],
        materials: vec![material("first"), material("second")],
    };
    assert!(model.is_complete());
    let (camera, light) = (group("camera"), group("light"));
    let mut pass = pass();
    pass.draw_model_instanced(&model, 0..4, &camera, &light);
    let commands = pass.commands();
    assert_eq!(commands.len(), 18);
    let worn = ["second", "first", "second"];
    for (i, mesh) in model.meshes.iter().enumerate() {
        match &commands[6 * i + 2] {
            RenderCommand::SetBindGroup { index: 0, bind_group } => {
                assert_eq!(bind_group.label, worn[i])
            }
            other => panic!("{:?}", other),
        }
        assert_eq!(
            commands[6 * i + 5],
            RenderCommand::DrawIndexed {
                indices: 0..mesh.num_elements,
                base_vertex: 0,
                instances: 0..4
            }
        );
    }

    let mut once = self::pass();
    once.draw_model(&model, &camera, &light);
    assert_eq!(once.commands().len(), 18);
    assert_eq!(
        once.commands()[17],
        RenderCommand::DrawIndexed { indices: 0..9, base_vertex: 0, instances: 0..1 }
    );

    let other = material("override");
    let mut with = self::pass();
    with.draw_model_instanced_with_material(&model, &other, 1..2, &camera, &light);
    assert_eq!(with.commands().len(), 18);
    for i in 0..3 {
        assert_eq!(
            with.commands()[6 * i + 2],
            RenderCommand::SetBindGroup { index: 0, bind_group: &other.bind_group }
        );
    }
}

#[test]
fn a_model_with_a_missing_material_is_incomplete() {
    let model = Model { meshes: vec![mesh("a", 3, 1)], materials: vec![material("only")] };
    assert!(!model.is_complete());
    let empty = Model { meshes: vec![], materials: vec![] };
    assert!(empty.is_complete());
}
