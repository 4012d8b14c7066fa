//! The quad that the shader paints: two triangles over the unit square.

use vstd::prelude::*;
use crate::bytes::words_to_bytes;
use crate::camera::{F_ONE, F_ZERO};
use crate::geometry::{
    IndexFormat, Vertex, VertexAttribute, VertexBinding, VertexBufferLayout, VertexFormat,
    VertexStepMode,
};
use crate::pass::{RenderCommand, RenderPass};

verus! {

/// Bits of the 32-bit float -1.0.
pub const F_NEG_ONE: u32 = 0xBF80_0000;

/// The four corners of the quad, each as five words: a position in x, y, z
/// and a texture coordinate in u, v. The corners run counter-clockwise from
/// the lower left as seen from the viewer; texture coordinates grow to the
/// right and downwards.
pub open spec fn quad_vertices() -> Seq<u32> {
    seq![
        F_NEG_ONE, F_NEG_ONE, F_ZERO, F_ZERO, F_ONE,
        F_ONE, F_NEG_ONE, F_ZERO, F_ONE, F_ONE,
        F_ONE, F_ONE, F_ZERO, F_ONE, F_ZERO,
        F_NEG_ONE, F_ONE, F_ZERO, F_ZERO, F_ZERO,
    ]
}

/// The two triangles of the quad, both counter-clockwise.
pub open spec fn quad_indices() -> Seq<u32> {
    seq![0, 1, 2, 2, 3, 0]
}

/// The inputs of a quad vertex: three floats of position at location 0,
/// then two floats of texture coordinate at location 1.
pub open spec fn quad_attributes() -> Seq<VertexAttribute> {
    seq![
        VertexAttribute { format: VertexFormat::Float32x3, offset: 0, shader_location: 0 },
        VertexAttribute { format: VertexFormat::Float32x2, offset: 12, shader_location: 1 },
    ]
}

/// One corner of the quad. The words hold the bits of 32-bit floats.
#[derive(Clone, Copy, Debug, PartialEq, Eq)]
pub struct QuadVertex {
    pub position: [u32; 3],
    pub uv: [u32; 2],
}

impl QuadVertex {
    /// A vertex at the origin with texture coordinate zero.
    pub fn new() -> (vertex: Self)
        ensures
            vertex.position@ == seq![F_ZERO, F_ZERO, F_ZERO],
            vertex.uv@ == seq![F_ZERO, F_ZERO],
    {
        QuadVertex { position: [F_ZERO, F_ZERO, F_ZERO], uv: [F_ZERO, F_ZERO] }
    }

    /// Layout of a quad vertex in its buffer: position and texture
    /// coordinate, one after the other, in 20 bytes.
    pub fn desc() -> (layout: VertexBufferLayout)
        ensures
            layout.array_stride == 20,
            layout.step_mode == VertexStepMode::Vertex,
            layout.attributes@ == quad_attributes(),
            layout.is_packed(),
    {
        let attributes: Vec<VertexAttribute> = vec![
            VertexAttribute { format: VertexFormat::Float32x3, offset: 0, shader_location: 0 },
            VertexAttribute { format: VertexFormat::Float32x2, offset: 12, shader_location: 1 },
        ];
        let layout = VertexBufferLayout {
            array_stride: 20,
            step_mode: VertexStepMode::Vertex,
            attributes,
        };
        proof {
            reveal_with_fuel(crate::geometry::attributes_size, 3);
        }
        layout
    }
}

impl Vertex for QuadVertex {
    open spec fn vertex_words(&self) -> Seq<u32> {
        quad_vertices()
    }

    open spec fn index_list(&self) -> Seq<u32> {
        quad_indices()
    }

    proof fn lemma_index_count(&self) {
    }

    fn get_vertices(&self) -> (bytes: Vec<u8>) {
        let words: [u32; 20] = [
            F_NEG_ONE, F_NEG_ONE, F_ZERO, F_ZERO, F_ONE,
            F_ONE, F_NEG_ONE, F_ZERO, F_ONE, F_ONE,
            F_ONE, F_ONE, F_ZERO, F_ONE, F_ZERO,
            F_NEG_ONE, F_ONE, F_ZERO, F_ZERO, F_ZERO,
        ];
        assert(words@ =~= quad_vertices());
        words_to_bytes(words.as_slice())
    }

    fn get_indices(&self) -> (bytes: Vec<u8>) {
        let words: [u32; 6] = [0, 1, 2, 2, 3, 0];
        assert(words@ =~= quad_indices());
        words_to_bytes(words.as_slice())
    }

    fn get_indices_number(&self) -> (n: u32) {
        6
    }
}

/// The commands that draw a mesh once: bind its vertices at input 0, bind
/// its indices as 32-bit numbers, and draw all of them in one instance.
pub open spec fn mesh_commands<'a>(mesh: &'a VertexBinding) -> Seq<RenderCommand<'a>> {
    seq![
        RenderCommand::SetVertexBuffer { slot: 0, buffer: mesh.vertex_buffer() },
        RenderCommand::SetIndexBuffer {
            buffer: mesh.index_buffer(),
            index_format: IndexFormat::Uint32,
        },
        RenderCommand::DrawIndexed {
            indices: 0..mesh.num_indices(),
            base_vertex: 0,
            instances: 0..1,
        },
    ]
}

/// Drawing of a mesh that stands alone.
pub trait DrawQuad<'a> {
    fn draw_mesh(&mut self, mesh: &'a VertexBinding);
}

impl<'a> DrawQuad<'a> for RenderPass<'a> {
    /// Records the commands that draw `mesh` once.
    fn draw_mesh(&mut self, mesh: &'a VertexBinding)
        ensures
            final(self).spec_descriptor() == old(self).spec_descriptor(),
            final(self).spec_commands() == old(self).spec_commands() + mesh_commands(mesh),
    {
        self.set_vertex_buffer(0, mesh.vertex_buffer());
        self.set_index_buffer(mesh.index_buffer(), IndexFormat::Uint32);
        self.draw_indexed(0..mesh.num_indices(), 0, 0..1);
        assert(self.spec_commands() =~= old(self).spec_commands() + mesh_commands(mesh));
    }
}

} // verus!
