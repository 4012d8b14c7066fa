//! Static meshes: their vertices and indices as buffer contents, and how a
//! vertex is laid out in its buffer.

use vstd::prelude::*;
use crate::binding::{BufferInitDescriptor, BufferUsages};
use crate::bytes::{is_memory_image, lemma_image_len, ByteOrder};

pub mod model;
pub mod quad;

verus! {

/// Width of the indices in an index buffer.
#[derive(Clone, Copy, Debug, PartialEq, Eq, Structural)]
pub enum IndexFormat {
    Uint16,
    Uint32,
}

/// Type of one vertex attribute: so many 32-bit floats.
#[derive(Clone, Copy, Debug, PartialEq, Eq, Structural)]
pub enum VertexFormat {
    Float32,
    Float32x2,
    Float32x3,
    Float32x4,
}

impl VertexFormat {
    /// Bytes that one attribute of this format takes in a vertex.
    pub open spec fn spec_size(&self) -> u64 {
        match self {
            VertexFormat::Float32 => 4,
            VertexFormat::Float32x2 => 8,
            VertexFormat::Float32x3 => 12,
            VertexFormat::Float32x4 => 16,
        }
    }

    #[verifier::when_used_as_spec(spec_size)]
    pub fn size(&self) -> (bytes: u64)
        ensures
            bytes == self.spec_size(),
    {
        match self {
            VertexFormat::Float32 => 4,
            VertexFormat::Float32x2 => 8,
            VertexFormat::Float32x3 => 12,
            VertexFormat::Float32x4 => 16,
        }
    }
}

/// Whether a buffer advances once per vertex or once per instance.
#[derive(Clone, Copy, Debug, PartialEq, Eq, Structural)]
pub enum VertexStepMode {
    Vertex,
    Instance,
}

/// One input of the vertex shader: where it starts inside a vertex, its
/// format, and the shader location that receives it.
#[derive(Clone, Copy, Debug, PartialEq, Eq, Structural)]
pub struct VertexAttribute {
    pub format: VertexFormat,
    pub offset: u64,
    pub shader_location: u32,
}

/// How the vertices of one buffer are laid out.
#[derive(Debug, PartialEq, Eq)]
pub struct VertexBufferLayout {
    /// Bytes from one vertex to the next.
    pub array_stride: u64,
    pub step_mode: VertexStepMode,
    pub attributes: Vec<VertexAttribute>,
}

/// Bytes taken by the first `n` of `attributes`.
pub open spec fn attributes_size(attributes: Seq<VertexAttribute>, n: int) -> int
    decreases n,
{
    if n <= 0 {
        0
    } else {
        attributes_size(attributes, n - 1) + attributes[n - 1].format.spec_size()
    }
}

impl VertexBufferLayout {
    /// The attributes follow one another without gap or overlap, in the
    /// order of their shader locations, and fill the vertex exactly.
    pub open spec fn is_packed(&self) -> bool {
        &&& forall|i: int|
            0 <= i < self.attributes@.len() ==> {
                &&& (#[trigger] self.attributes@[i]).offset == attributes_size(self.attributes@, i)
                &&& self.attributes@[i].shader_location == i
            }
        &&& self.array_stride == attributes_size(self.attributes@, self.attributes@.len() as int)
    }
}

/// The buffers of one mesh and the number of indices to draw.
#[derive(Debug)]
pub struct VertexBinding {
    vertex_buffer: BufferInitDescriptor,
    index_buffer: BufferInitDescriptor,
    num_indices: u32,
}

impl VertexBinding {
    pub closed spec fn spec_vertex_buffer(&self) -> &BufferInitDescriptor {
        &self.vertex_buffer
    }

    pub closed spec fn spec_index_buffer(&self) -> &BufferInitDescriptor {
        &self.index_buffer
    }

    pub closed spec fn spec_num_indices(&self) -> u32 {
        self.num_indices
    }

    /// The index buffer holds exactly `num_indices` indices of 32 bits.
    pub open spec fn wf(&self) -> bool {
        self.index_buffer().contents@.len() == 4 * self.num_indices()
    }

    /// The binding describes a vertex buffer that holds `vertices` and an
    /// index buffer that holds `indices`, and counts the indices.
    pub open spec fn holds(&self, vertices: Seq<u32>, indices: Seq<u32>) -> bool {
        &&& self.num_indices() == indices.len()
        &&& self.vertex_buffer().label == "Vertex Buffer"
        &&& self.vertex_buffer().usage == BufferUsages::spec_vertex()
        &&& is_memory_image(vertices, self.vertex_buffer().contents@)
        &&& self.index_buffer().label == "Index Buffer"
        &&& self.index_buffer().usage == BufferUsages::spec_index()
        &&& is_memory_image(indices, self.index_buffer().contents@)
    }

    #[verifier::when_used_as_spec(spec_vertex_buffer)]
    pub fn vertex_buffer(&self) -> (buffer: &BufferInitDescriptor)
        ensures
            buffer == self.vertex_buffer(),
    {
        &self.vertex_buffer
    }

    #[verifier::when_used_as_spec(spec_index_buffer)]
    pub fn index_buffer(&self) -> (buffer: &BufferInitDescriptor)
        ensures
            buffer == self.index_buffer(),
    {
        &self.index_buffer
    }

    #[verifier::when_used_as_spec(spec_num_indices)]
    pub fn num_indices(&self) -> (n: u32)
        ensures
            n == self.num_indices(),
    {
        self.num_indices
    }
}

/// A kind of geometry that can be drawn: it names its vertices, its indices
/// and how many indices there are.
pub trait Vertex: Sized {
    /// The vertices as 32-bit words, vertex after vertex.
    spec fn vertex_words(&self) -> Seq<u32>;

    /// The indices, three for each triangle.
    spec fn index_list(&self) -> Seq<u32>;

    /// The number of indices fits the count of a draw call.
    proof fn lemma_index_count(&self)
        ensures
            self.index_list().len() <= u32::MAX,
    ;

    /// The bytes of the vertex buffer.
    fn get_vertices(&self) -> (bytes: Vec<u8>)
        ensures
            is_memory_image(self.vertex_words(), bytes@),
    ;

    /// The bytes of the index buffer.
    fn get_indices(&self) -> (bytes: Vec<u8>)
        ensures
            is_memory_image(self.index_list(), bytes@),
    ;

    fn get_indices_number(&self) -> (n: u32)
        ensures
            n == self.index_list().len(),
    ;

    /// Describes the two buffers of the mesh, filled with its vertices and
    /// its indices, and records how many indices a draw covers.
    fn make_binding(self) -> (binding: VertexBinding)
        ensures
            binding.wf(),
            binding.holds(self.vertex_words(), self.index_list()),
    {
        let vertex_buffer = BufferInitDescriptor {
            label: "Vertex Buffer",
            contents: self.get_vertices(),
            usage: BufferUsages::vertex(),
        };
        let index_buffer = BufferInitDescriptor {
            label: "Index Buffer",
            contents: self.get_indices(),
            usage: BufferUsages::index(),
        };
        let num_indices = self.get_indices_number();
        proof {
            lemma_image_len(ByteOrder::Little, self.index_list());
            lemma_image_len(ByteOrder::Big, self.index_list());
        }
        VertexBinding { vertex_buffer, index_buffer, num_indices }
    }
}

} // verus!
