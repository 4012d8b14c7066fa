//! Descriptions of buffers, bind group layouts and bind groups.
//!
//! A description says what is to be created on the device. Creating it is
//! left to the caller; nothing here holds a device handle. Where one
//! description refers to another object, it names that object by its label.

use vstd::prelude::*;

verus! {

/// What a buffer may be used for.
#[derive(Clone, Copy, Debug, PartialEq, Eq, Structural)]
pub struct BufferUsages {
    pub map_read: bool,
    pub map_write: bool,
    pub copy_src: bool,
    pub copy_dst: bool,
    pub index: bool,
    pub vertex: bool,
    pub uniform: bool,
    pub storage: bool,
    pub indirect: bool,
}

impl BufferUsages {
    /// No use at all.
    pub open spec fn spec_empty() -> Self {
        BufferUsages {
            map_read: false,
            map_write: false,
            copy_src: false,
            copy_dst: false,
            index: false,
            vertex: false,
            uniform: false,
            storage: false,
            indirect: false,
        }
    }

    /// A uniform block that is overwritten in place.
    pub open spec fn spec_uniform() -> Self {
        BufferUsages { uniform: true, copy_dst: true, ..Self::spec_empty() }
    }

    /// A source of vertices.
    pub open spec fn spec_vertex() -> Self {
        BufferUsages { vertex: true, ..Self::spec_empty() }
    }

    /// A source of indices.
    pub open spec fn spec_index() -> Self {
        BufferUsages { index: true, ..Self::spec_empty() }
    }

    #[verifier::when_used_as_spec(spec_empty)]
    pub fn empty() -> (usage: Self)
        ensures
            usage == Self::spec_empty(),
    {
        BufferUsages {
            map_read: false,
            map_write: false,
            copy_src: false,
            copy_dst: false,
            index: false,
            vertex: false,
            uniform: false,
            storage: false,
            indirect: false,
        }
    }

    #[verifier::when_used_as_spec(spec_uniform)]
    pub fn uniform() -> (usage: Self)
        ensures
            usage == Self::spec_uniform(),
    {
        BufferUsages { uniform: true, copy_dst: true, ..Self::empty() }
    }

    #[verifier::when_used_as_spec(spec_vertex)]
    pub fn vertex() -> (usage: Self)
        ensures
            usage == Self::spec_vertex(),
    {
        BufferUsages { vertex: true, ..Self::empty() }
    }

    #[verifier::when_used_as_spec(spec_index)]
    pub fn index() -> (usage: Self)
        ensures
            usage == Self::spec_index(),
    {
        BufferUsages { index: true, ..Self::empty() }
    }
}

/// A buffer to create together with the bytes it starts out with. Its size
/// is that of `contents`.
#[derive(Debug, PartialEq, Eq)]
pub struct BufferInitDescriptor {
    pub label: &'static str,
    pub contents: Vec<u8>,
    pub usage: BufferUsages,
}

/// Shader stages that can see a binding.
#[derive(Clone, Copy, Debug, PartialEq, Eq, Structural)]
pub struct ShaderStages {
    pub vertex: bool,
    pub fragment: bool,
    pub compute: bool,
}

impl ShaderStages {
    /// The two stages of a render pipeline.
    pub open spec fn spec_vertex_fragment() -> Self {
        ShaderStages { vertex: true, fragment: true, compute: false }
    }

    #[verifier::when_used_as_spec(spec_vertex_fragment)]
    pub fn vertex_fragment() -> (stages: Self)
        ensures
            stages == Self::spec_vertex_fragment(),
    {
        ShaderStages { vertex: true, fragment: true, compute: false }
    }
}

/// How a shader reads a bound buffer.
#[derive(Clone, Copy, Debug, PartialEq, Eq, Structural)]
pub enum BufferBindingType {
    Uniform,
    Storage { read_only: bool },
}

/// Kind of resource a layout entry accepts.
#[derive(Clone, Copy, Debug, PartialEq, Eq, Structural)]
pub enum BindingType {
    Buffer { ty: BufferBindingType, has_dynamic_offset: bool, min_binding_size: Option<u64> },
    TextureView,
    Sampler,
}

/// One slot of a bind group layout.
#[derive(Clone, Copy, Debug, PartialEq, Eq, Structural)]
pub struct BindGroupLayoutEntry {
    pub binding: u32,
    pub visibility: ShaderStages,
    pub ty: BindingType,
    pub count: Option<u32>,
}

impl BindGroupLayoutEntry {
    /// A single uniform buffer at slot `binding`, bound whole and at a fixed
    /// offset, visible to the vertex and the fragment stage.
    pub open spec fn spec_uniform_buffer(binding: u32) -> Self {
        BindGroupLayoutEntry {
            binding,
            visibility: ShaderStages::spec_vertex_fragment(),
            ty: BindingType::Buffer {
                ty: BufferBindingType::Uniform,
                has_dynamic_offset: false,
                min_binding_size: None,
            },
            count: None,
        }
    }

    #[verifier::when_used_as_spec(spec_uniform_buffer)]
    pub fn uniform_buffer(binding: u32) -> (entry: Self)
        ensures
            entry == Self::spec_uniform_buffer(binding),
    {
        BindGroupLayoutEntry {
            binding,
            visibility: ShaderStages::vertex_fragment(),
            ty: BindingType::Buffer {
                ty: BufferBindingType::Uniform,
                has_dynamic_offset: false,
                min_binding_size: None,
            },
            count: None,
        }
    }
}

/// Layout of one bind group: its label and its slots.
#[derive(Debug, PartialEq, Eq)]
pub struct BindGroupLayoutDescriptor {
    pub label: &'static str,
    pub entries: Vec<BindGroupLayoutEntry>,
}

impl BindGroupLayoutDescriptor {
    /// A layout with one slot, number 0, for a uniform block.
    pub open spec fn is_uniform_block(&self, label: &'static str) -> bool {
        self.label == label && self.entries@ == seq![BindGroupLayoutEntry::spec_uniform_buffer(0)]
    }

    /// The layout of a group that holds one uniform block at slot 0.
    pub fn uniform_block(label: &'static str) -> (layout: Self)
        ensures
            layout.is_uniform_block(label),
    {
        let mut entries: Vec<BindGroupLayoutEntry> = Vec::new();
        entries.push(BindGroupLayoutEntry::uniform_buffer(0));
        BindGroupLayoutDescriptor { label, entries }
    }
}

/// What a slot of a bind group points at.
#[derive(Clone, Copy, Debug, PartialEq, Eq, Structural)]
pub enum BindingResource {
    /// The whole of the buffer the group was made for.
    Buffer,
    /// The view of the group's texture number `texture`.
    TextureView { texture: u32 },
    /// The sampler of the group's texture number `texture`.
    Sampler { texture: u32 },
}

/// One filled slot of a bind group.
#[derive(Clone, Copy, Debug, PartialEq, Eq, Structural)]
pub struct BindGroupEntry {
    pub binding: u32,
    pub resource: BindingResource,
}

/// A bind group to create: its label, the label of the layout it follows,
/// and what each slot points at.
#[derive(Debug, PartialEq, Eq)]
pub struct BindGroupDescriptor {
    pub label: String,
    pub layout: &'static str,
    pub entries: Vec<BindGroupEntry>,
}

} // verus!
