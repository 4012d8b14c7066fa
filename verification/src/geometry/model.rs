//! Loaded models: meshes, their materials, and how they are drawn.

use vstd::prelude::*;
use std::ops::Range;
use crate::binding::{
    BindGroupDescriptor, BindGroupEntry, BindGroupLayoutDescriptor, BindingResource,
    BufferInitDescriptor,
};
use crate::geometry::{
    IndexFormat, VertexAttribute, VertexBufferLayout, VertexFormat, VertexStepMode,
};
use crate::pass::{RenderCommand, RenderPass};
use crate::texture::Texture;

verus! {

/// One vertex of a model. The words hold the bits of 32-bit floats.
#[derive(Clone, Copy, Debug, PartialEq, Eq)]
pub struct ModelVertex {
    pub position: [u32; 3],
    pub uv: [u32; 2],
    pub normal: [u32; 3],
    pub tangent: [u32; 3],
    pub bitangent: [u32; 3],
}

impl ModelVertex {
    /// A vertex with zero in every word.
    pub fn new() -> (vertex: Self)
        ensures
            vertex.position@ == seq![0u32, 0u32, 0u32],
            vertex.uv@ == seq![0u32, 0u32],
            vertex.normal@ == seq![0u32, 0u32, 0u32],
            vertex.tangent@ == seq![0u32, 0u32, 0u32],
            vertex.bitangent@ == seq![0u32, 0u32, 0u32],
    {
        ModelVertex {
            position: [0, 0, 0],
            uv: [0, 0],
            normal: [0, 0, 0],
            tangent: [0, 0, 0],
            bitangent: [0, 0, 0],
        }
    }

    /// Layout of a model vertex in its buffer: position, texture
    /// coordinate, normal, tangent and bitangent, one after the other at
    /// locations 0 to 4, in 56 bytes.
    pub fn desc() -> (layout: VertexBufferLayout)
        ensures
            layout.array_stride == 56,
            layout.step_mode == VertexStepMode::Vertex,
            layout.attributes@ == seq![
                VertexAttribute { format: VertexFormat::Float32x3, offset: 0, shader_location: 0 },
                VertexAttribute { format: VertexFormat::Float32x2, offset: 12, shader_location: 1 },
                VertexAttribute { format: VertexFormat::Float32x3, offset: 20, shader_location: 2 },
                VertexAttribute { format: VertexFormat::Float32x3, offset: 32, shader_location: 3 },
                VertexAttribute { format: VertexFormat::Float32x3, offset: 44, shader_location: 4 },
            ],
            layout.is_packed(),
    {
        let attributes: Vec<VertexAttribute> = vec![
            VertexAttribute { format: VertexFormat::Float32x3, offset: 0, shader_location: 0 },
            VertexAttribute { format: VertexFormat::Float32x2, offset: 12, shader_location: 1 },
            VertexAttribute { format: VertexFormat::Float32x3, offset: 20, shader_location: 2 },
            VertexAttribute { format: VertexFormat::Float32x3, offset: 32, shader_location: 3 },
            VertexAttribute { format: VertexFormat::Float32x3, offset: 44, shader_location: 4 },
        ];
        let layout = VertexBufferLayout {
            array_stride: 56,
            step_mode: VertexStepMode::Vertex,
            attributes,
        };
        proof {
            reveal_with_fuel(crate::geometry::attributes_size, 6);
        }
        layout
    }
}

/// The slots of a material's bind group: view and sampler of the diffuse
/// texture, then view and sampler of the normal texture.
pub open spec fn material_entries() -> Seq<BindGroupEntry> {
    seq![
        BindGroupEntry { binding: 0, resource: BindingResource::TextureView { texture: 0 } },
        BindGroupEntry { binding: 1, resource: BindingResource::Sampler { texture: 0 } },
        BindGroupEntry { binding: 2, resource: BindingResource::TextureView { texture: 1 } },
        BindGroupEntry { binding: 3, resource: BindingResource::Sampler { texture: 1 } },
    ]
}

/// A surface finish: a color texture, a texture of normals, and the bind
/// group that holds the two. In the group the diffuse texture is texture 0
/// and the normal texture is texture 1.
#[derive(Debug)]
pub struct Material {
    pub name: String,
    pub diffuse_texture: Texture,
    pub normal_texture: Texture,
    pub bind_group: BindGroupDescriptor,
}

impl Material {
    /// A material of the two textures, with a bind group of the given
    /// layout that is labelled with the material's name.
    pub fn new(
        name: &str,
        diffuse_texture: Texture,
        normal_texture: Texture,
        layout: &BindGroupLayoutDescriptor,
    ) -> (material: Self)
        ensures
            material.name@ == name@,
            material.diffuse_texture == diffuse_texture,
            material.normal_texture == normal_texture,
            material.bind_group.label@ == name@,
            material.bind_group.layout == layout.label,
            material.bind_group.entries@ == material_entries(),
    {
        let entries: Vec<BindGroupEntry> = vec![
            BindGroupEntry { binding: 0, resource: BindingResource::TextureView { texture: 0 } },
            BindGroupEntry { binding: 1, resource: BindingResource::Sampler { texture: 0 } },
            BindGroupEntry { binding: 2, resource: BindingResource::TextureView { texture: 1 } },
            BindGroupEntry { binding: 3, resource: BindingResource::Sampler { texture: 1 } },
        ];
        let bind_group = BindGroupDescriptor {
            label: name.to_owned(),
            layout: layout.label,
            entries,
        };
        Material { name: name.to_owned(), diffuse_texture, normal_texture, bind_group }
    }
}

/// One mesh of a model: its buffers, how many indices it has, and which of
/// the model's materials it wears.
#[derive(Debug)]
pub struct Mesh {
    pub name: String,
    pub vertex_buffer: BufferInitDescriptor,
    pub index_buffer: BufferInitDescriptor,
    pub num_elements: u32,
    pub material: usize,
}

/// A model: meshes and the materials they wear.
#[derive(Debug)]
pub struct Model {
    pub meshes: Vec<Mesh>,
    pub materials: Vec<Material>,
}

impl Model {
    /// Every mesh names a material that the model has.
    pub open spec fn wf(&self) -> bool {
        forall|i: int|
            0 <= i < self.meshes@.len() ==> (#[trigger] self.meshes@[i]).material
                < self.materials@.len()
    }

    /// Whether every mesh names a material that the model has.
    pub fn is_complete(&self) -> (complete: bool)
        ensures
            complete == self.wf(),
    {
        let mut i: usize = 0;
        while i < self.meshes.len()
            invariant
                i <= self.meshes@.len(),
                forall|k: int|
                    0 <= k < i ==> (#[trigger] self.meshes@[k]).material < self.materials@.len(),
            decreases self.meshes@.len() - i,
        {
            if self.meshes[i].material >= self.materials.len() {
                return false;
            }
            i += 1;
        }
        true
    }
}

/// The commands that draw one mesh with one material: the mesh's vertices
/// at input 0, its indices as 32-bit numbers, the material as group 0, the
/// camera as group 1, the light as group 2, and all indices of the mesh
/// drawn for the given instances.
pub open spec fn mesh_instanced_commands<'a>(
    mesh: &'a Mesh,
    material: &'a Material,
    instances: Range<u32>,
    camera_bind_group: &'a BindGroupDescriptor,
    light_bind_group: &'a BindGroupDescriptor,
) -> Seq<RenderCommand<'a>> {
    seq![
        RenderCommand::SetVertexBuffer { slot: 0, buffer: &mesh.vertex_buffer },
        RenderCommand::SetIndexBuffer {
            buffer: &mesh.index_buffer,
            index_format: IndexFormat::Uint32,
        },
        RenderCommand::SetBindGroup { index: 0, bind_group: &material.bind_group },
        RenderCommand::SetBindGroup { index: 1, bind_group: camera_bind_group },
        RenderCommand::SetBindGroup { index: 2, bind_group: light_bind_group },
        RenderCommand::DrawIndexed { indices: 0..mesh.num_elements, base_vertex: 0, instances },
    ]
}

/// The commands that draw the first `n` meshes of a model, each with the
/// material it names.
pub open spec fn model_commands<'a>(
    model: &'a Model,
    n: int,
    instances: Range<u32>,
    camera_bind_group: &'a BindGroupDescriptor,
    light_bind_group: &'a BindGroupDescriptor,
) -> Seq<RenderCommand<'a>>
    decreases n,
{
    if n <= 0 {
        Seq::empty()
    } else {
        model_commands(model, n - 1, instances, camera_bind_group, light_bind_group)
            + mesh_instanced_commands(
            &model.meshes@[n - 1],
            &model.materials@[model.meshes@[n - 1].material as int],
            instances,
            camera_bind_group,
            light_bind_group,
        )
    }
}

/// The commands that draw the first `n` meshes of a model, all with the
/// one material given.
pub open spec fn model_commands_with_material<'a>(
    model: &'a Model,
    n: int,
    material: &'a Material,
    instances: Range<u32>,
    camera_bind_group: &'a BindGroupDescriptor,
    light_bind_group: &'a BindGroupDescriptor,
) -> Seq<RenderCommand<'a>>
    decreases n,
{
    if n <= 0 {
        Seq::empty()
    } else {
        model_commands_with_material(
            model,
            n - 1,
            material,
            instances,
            camera_bind_group,
            light_bind_group,
        ) + mesh_instanced_commands(
            &model.meshes@[n - 1],
            material,
            instances,
            camera_bind_group,
            light_bind_group,
        )
    }
}

/// Drawing of meshes that wear materials.
pub trait DrawModel<'a> {
    fn draw_mesh(
        &mut self,
        mesh: &'a Mesh,
        material: &'a Material,
        camera_bind_group: &'a BindGroupDescriptor,
        light_bind_group: &'a BindGroupDescriptor,
    );

    fn draw_mesh_instanced(
        &mut self,
        mesh: &'a Mesh,
        material: &'a Material,
        instances: Range<u32>,
        camera_bind_group: &'a BindGroupDescriptor,
        light_bind_group: &'a BindGroupDescriptor,
    );

    fn draw_model(
        &mut self,
        model: &'a Model,
        camera_bind_group: &'a BindGroupDescriptor,
        light_bind_group: &'a BindGroupDescriptor,
    )
        requires
            model.wf(),
    ;

    fn draw_model_instanced(
        &mut self,
        model: &'a Model,
        instances: Range<u32>,
        camera_bind_group: &'a BindGroupDescriptor,
        light_bind_group: &'a BindGroupDescriptor,
    )
        requires
            model.wf(),
    ;

    fn draw_model_instanced_with_material(
        &mut self,
        model: &'a Model,
        material: &'a Material,
        instances: Range<u32>,
        camera_bind_group: &'a BindGroupDescriptor,
        light_bind_group: &'a BindGroupDescriptor,
    );
}

impl<'a> DrawModel<'a> for RenderPass<'a> {
    /// Records the commands that draw `mesh` once.
    fn draw_mesh(
        &mut self,
        mesh: &'a Mesh,
        material: &'a Material,
        camera_bind_group: &'a BindGroupDescriptor,
        light_bind_group: &'a BindGroupDescriptor,
    )
        ensures
            final(self).spec_descriptor() == old(self).spec_descriptor(),
            final(self).spec_commands() == old(self).spec_commands() + mesh_instanced_commands(
                mesh,
                material,
                0..1,
                camera_bind_group,
                light_bind_group,
            ),
    {
        self.draw_mesh_instanced(mesh, material, 0..1, camera_bind_group, light_bind_group);
    }

    /// Records the commands that draw `mesh` for the given instances.
    fn draw_mesh_instanced(
        &mut self,
        mesh: &'a Mesh,
        material: &'a Material,
        instances: Range<u32>,
        camera_bind_group: &'a BindGroupDescriptor,
        light_bind_group: &'a BindGroupDescriptor,
    )
        ensures
            final(self).spec_descriptor() == old(self).spec_descriptor(),
            final(self).spec_commands() == old(self).spec_commands() + mesh_instanced_commands(
                mesh,
                material,
                instances,
                camera_bind_group,
                light_bind_group,
            ),
    {
        self.set_vertex_buffer(0, &mesh.vertex_buffer);
        self.set_index_buffer(&mesh.index_buffer, IndexFormat::Uint32);
        self.set_bind_group(0, &material.bind_group);
        self.set_bind_group(1, camera_bind_group);
        self.set_bind_group(2, light_bind_group);
        self.draw_indexed(0..mesh.num_elements, 0, instances);
        assert(self.spec_commands() =~= old(self).spec_commands() + mesh_instanced_commands(
            mesh,
            material,
            instances,
            camera_bind_group,
            light_bind_group,
        ));
    }

    /// Records the commands that draw every mesh of `model` once, each
    /// with the material it names.
    fn draw_model(
        &mut self,
        model: &'a Model,
        camera_bind_group: &'a BindGroupDescriptor,
        light_bind_group: &'a BindGroupDescriptor,
    )
        ensures
            final(self).spec_descriptor() == old(self).spec_descriptor(),
            final(self).spec_commands() == old(self).spec_commands() + model_commands(
                model,
                model.meshes@.len() as int,
                0..1,
                camera_bind_group,
                light_bind_group,
            ),
    {
        self.draw_model_instanced(model, 0..1, camera_bind_group, light_bind_group);
    }

    /// Records the commands that draw every mesh of `model` for the given
    /// instances, in the order of the meshes, each with the material it
    /// names.
    fn draw_model_instanced(
        &mut self,
        model: &'a Model,
        instances: Range<u32>,
        camera_bind_group: &'a BindGroupDescriptor,
        light_bind_group: &'a BindGroupDescriptor,
    )
        ensures
            final(self).spec_descriptor() == old(self).spec_descriptor(),
            final(self).spec_commands() == old(self).spec_commands() + model_commands(
                model,
                model.meshes@.len() as int,
                instances,
                camera_bind_group,
                light_bind_group,
            ),
    {
        let mut i: usize = 0;
        assert(self.spec_commands() =~= old(self).spec_commands() + model_commands(
            model,
            0,
            instances,
            camera_bind_group,
            light_bind_group,
        ));
        while i < model.meshes.len()
            invariant
                i <= model.meshes@.len(),
                model.wf(),
                self.spec_descriptor() == old(self).spec_descriptor(),
                self.spec_commands() == old(self).spec_commands() + model_commands(
                    model,
                    i as int,
                    instances,
                    camera_bind_group,
                    light_bind_group,
                ),
            decreases model.meshes@.len() - i,
        {
            let mesh = &model.meshes[i];
            let material = &model.materials[mesh.material];
            let ghost before = self.spec_commands();
            self.draw_mesh_instanced(
                mesh,
                material,
                Range { start: instances.start, end: instances.end },
                camera_bind_group,
                light_bind_group,
            );
            i += 1;
            assert(self.spec_commands() =~= old(self).spec_commands() + model_commands(
                model,
                i as int,
                instances,
                camera_bind_group,
                light_bind_group,
            ));
        }
    }

    /// Records the commands that draw every mesh of `model` for the given
    /// instances, in the order of the meshes, all with `material`.
    fn draw_model_instanced_with_material(
        &mut self,
        model: &'a Model,
        material: &'a Material,
        instances: Range<u32>,
        camera_bind_group: &'a BindGroupDescriptor,
        light_bind_group: &'a BindGroupDescriptor,
    )
        ensures
            final(self).spec_descriptor() == old(self).spec_descriptor(),
            final(self).spec_commands() == old(self).spec_commands()
                + model_commands_with_material(
                model,
                model.meshes@.len() as int,
                material,
                instances,
                camera_bind_group,
                light_bind_group,
            ),
    {
        let mut i: usize = 0;
        assert(self.spec_commands() =~= old(self).spec_commands() + model_commands_with_material(
            model,
            0,
            material,
            instances,
            camera_bind_group,
            light_bind_group,
        ));
        while i < model.meshes.len()
            invariant
                i <= model.meshes@.len(),
                self.spec_descriptor() == old(self).spec_descriptor(),
                self.spec_commands() == old(self).spec_commands() + model_commands_with_material(
                    model,
                    i as int,
                    material,
                    instances,
                    camera_bind_group,
                    light_bind_group,
                ),
            decreases model.meshes@.len() - i,
        {
            let mesh = &model.meshes[i];
            self.draw_mesh_instanced(
                mesh,
                material,
                Range { start: instances.start, end: instances.end },
                camera_bind_group,
                light_bind_group,
            );
            i += 1;
            assert(self.spec_commands() =~= old(self).spec_commands()
                + model_commands_with_material(
                model,
                i as int,
                material,
                instances,
                camera_bind_group,
                light_bind_group,
            ));
        }
    }
}

} // verus!
