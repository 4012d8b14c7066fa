//! Parameter blocks that shaders read, and what binds each to the device.
//!
//! A block lives on the CPU as a struct of 32-bit words. Its binding pairs
//! the struct with the description of one buffer, sized for the block and
//! filled with its bytes, and of one bind group whose slot 0 is that buffer.
//! The struct changes every frame; the buffer and the group never do, so a
//! new value of the block always goes into the same buffer.

use vstd::prelude::*;
use crate::binding::{
    BindGroupDescriptor, BindGroupEntry, BindGroupLayoutDescriptor, BindingResource,
    BufferInitDescriptor, BufferUsages,
};
use crate::bytes::{is_memory_image, words_to_bytes};

pub mod camera;
pub mod system;

verus! {

/// A block of shader parameters with a fixed layout of 32-bit words.
pub trait Uniform: Sized {
    /// Number of words in the block, padding included.
    spec fn word_count() -> nat;

    /// The block word by word, as the shader declares it.
    spec fn layout(&self) -> Seq<u32>;

    /// Label of the block's buffer.
    spec fn buffer_label(&self) -> &'static str;

    /// Label of the block's bind group.
    spec fn bind_group_label(&self) -> &'static str;

    /// Every value of the block has the same number of words, and that
    /// number fills whole rows of 16 bytes.
    proof fn lemma_layout(&self)
        ensures
            self.layout().len() == Self::word_count(),
            Self::word_count() % 4 == 0,
    ;

    fn get_buffer_label(&self) -> (label: &'static str)
        ensures
            label == self.buffer_label(),
    ;

    fn get_bind_group_label(&self) -> (label: &'static str)
        ensures
            label == self.bind_group_label(),
    ;

    /// The words of the block, in layout order.
    fn words(&self) -> (words: Vec<u32>)
        ensures
            words@ == self.layout(),
    ;

    /// The bytes that go into the block's buffer.
    fn bytes(&self) -> (bytes: Vec<u8>)
        ensures
            is_memory_image(self.layout(), bytes@),
            bytes@.len() == 4 * Self::word_count(),
    {
        proof {
            self.lemma_layout();
        }
        let words = self.words();
        words_to_bytes(words.as_slice())
    }

    /// Pairs the block with the description of its buffer and bind group.
    /// The buffer starts out with the block's bytes and can be bound as a
    /// uniform and overwritten; the group follows `bind_group_layout` and
    /// binds the whole buffer at slot 0.
    fn make_binding(self, bind_group_layout: &BindGroupLayoutDescriptor) -> (binding:
        UniformBinding<Self>)
        ensures
            *binding.uniform() == self,
            binding.buffer().contents@.len() == 4 * Self::word_count(),
            binding.buffer().label == self.buffer_label(),
            is_memory_image(self.layout(), binding.buffer().contents@),
            binding.buffer().usage == BufferUsages::spec_uniform(),
            binding.bind_group().label@ == self.bind_group_label()@,
            binding.bind_group().layout == bind_group_layout.label,
            binding.bind_group().entries@ == seq![
                BindGroupEntry { binding: 0, resource: BindingResource::Buffer },
            ],
    {
        let buffer = BufferInitDescriptor {
            label: self.get_buffer_label(),
            contents: self.bytes(),
            usage: BufferUsages::uniform(),
        };
        let mut entries: Vec<BindGroupEntry> = Vec::new();
        entries.push(BindGroupEntry { binding: 0, resource: BindingResource::Buffer });
        let bind_group = BindGroupDescriptor {
            label: self.get_bind_group_label().to_owned(),
            layout: bind_group_layout.label,
            entries,
        };
        UniformBinding { uniform: self, buffer, bind_group }
    }
}

/// A parameter block together with the description of its buffer and of its
/// bind group.
#[derive(Debug)]
pub struct UniformBinding<T> {
    uniform: T,
    buffer: BufferInitDescriptor,
    bind_group: BindGroupDescriptor,
}

impl<T: Uniform> UniformBinding<T> {
    /// The buffer has exactly the size of the block.
    pub open spec fn wf(&self) -> bool {
        self.buffer().contents@.len() == 4 * T::word_count()
    }

    /// The binding is the one made of `uniform` for a bind group layout
    /// with the label `layout`: it holds the block, its buffer can be bound
    /// as a uniform and overwritten and starts out with the block's bytes,
    /// and its bind group follows the layout and binds the whole buffer at
    /// slot 0.
    pub open spec fn binds(&self, uniform: T, layout: &'static str) -> bool {
        &&& *self.uniform() == uniform
        &&& self.buffer().label == uniform.buffer_label()
        &&& is_memory_image(uniform.layout(), self.buffer().contents@)
        &&& self.buffer().contents@.len() == 4 * T::word_count()
        &&& self.buffer().usage == BufferUsages::spec_uniform()
        &&& self.bind_group().label@ == uniform.bind_group_label()@
        &&& self.bind_group().layout == layout
        &&& self.bind_group().entries@ == seq![
            BindGroupEntry { binding: 0, resource: BindingResource::Buffer },
        ]
    }

    /// A well-formed binding has a buffer of whole 16-byte rows, one word of
    /// it for each word of the block.
    pub proof fn lemma_buffer_size(&self)
        requires
            self.wf(),
        ensures
            self.buffer().contents@.len() == 4 * T::word_count(),
            self.buffer().contents@.len() == 4 * self.uniform().layout().len(),
            self.buffer().contents@.len() % 16 == 0,
    {
        self.uniform.lemma_layout();
    }
}

impl<T> UniformBinding<T> {
    pub closed spec fn spec_uniform(&self) -> &T {
        &self.uniform
    }

    pub closed spec fn spec_buffer(&self) -> &BufferInitDescriptor {
        &self.buffer
    }

    pub closed spec fn spec_bind_group(&self) -> &BindGroupDescriptor {
        &self.bind_group
    }

    /// The block as it stands on the CPU.
    #[verifier::when_used_as_spec(spec_uniform)]
    pub fn uniform(&self) -> (uniform: &T)
        ensures
            uniform == self.uniform(),
    {
        &self.uniform
    }

    /// The block, to be changed in place. The buffer and the bind group stay
    /// as they are.
    pub fn uniform_mut(&mut self) -> (uniform: &mut T)
        ensures
            *uniform == *old(self).uniform(),
            *final(self).uniform() == *final(uniform),
            final(self).buffer() == old(self).buffer(),
            final(self).bind_group() == old(self).bind_group(),
    {
        &mut self.uniform
    }

    /// The buffer as it was created.
    #[verifier::when_used_as_spec(spec_buffer)]
    pub fn buffer(&self) -> (buffer: &BufferInitDescriptor)
        ensures
            buffer == self.buffer(),
    {
        &self.buffer
    }

    /// The bind group as it was created.
    #[verifier::when_used_as_spec(spec_bind_group)]
    pub fn bind_group(&self) -> (bind_group: &BindGroupDescriptor)
        ensures
            bind_group == self.bind_group(),
    {
        &self.bind_group
    }
}

} // verus!
