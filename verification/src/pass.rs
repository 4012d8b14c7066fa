//! A render pass as the list of what it does.
//!
//! The pass records each command in the order given. Whoever holds the
//! device replays the list on the real encoder.

use vstd::prelude::*;
use std::ops::Range;
use crate::binding::{BindGroupDescriptor, BufferInitDescriptor};
use crate::geometry::IndexFormat;
use crate::pipeline::RenderPipelineDescriptor;

verus! {

/// A color of four channels, each a 64-bit float in its bits.
#[derive(Clone, Copy, Debug, PartialEq, Eq, Structural)]
pub struct Color {
    pub r: u64,
    pub g: u64,
    pub b: u64,
    pub a: u64,
}

/// What happens to an attachment when the pass begins.
#[derive(Clone, Copy, Debug, PartialEq, Eq, Structural)]
pub enum LoadOp {
    /// It is filled with the color.
    Clear(Color),
    /// It keeps what it holds.
    Load,
}

/// What happens to an attachment when the pass begins and when it ends.
#[derive(Clone, Copy, Debug, PartialEq, Eq, Structural)]
pub struct Operations {
    pub load: LoadOp,
    /// Whether the result of the pass is kept.
    pub store: bool,
}

/// A color target of the pass: the frame that is being drawn, written
/// directly.
#[derive(Clone, Copy, Debug, PartialEq, Eq, Structural)]
pub struct RenderPassColorAttachment {
    pub ops: Operations,
}

/// The targets of a render pass. A pass of this library has no depth or
/// stencil target.
#[derive(Debug, PartialEq, Eq)]
pub struct RenderPassDescriptor {
    pub label: &'static str,
    pub color_attachments: Vec<Option<RenderPassColorAttachment>>,
}

/// One command of a render pass.
#[derive(Debug, PartialEq, Eq)]
pub enum RenderCommand<'a> {
    SetPipeline(&'a RenderPipelineDescriptor),
    /// Binds a group at a group number, at offset zero.
    SetBindGroup { index: u32, bind_group: &'a BindGroupDescriptor },
    /// Binds the whole of a buffer as vertex input number `slot`.
    SetVertexBuffer { slot: u32, buffer: &'a BufferInitDescriptor },
    /// Binds the whole of a buffer as the source of indices.
    SetIndexBuffer { buffer: &'a BufferInitDescriptor, index_format: IndexFormat },
    /// Draws the indices of `indices`, each moved by `base_vertex`, once for
    /// each instance of `instances`.
    DrawIndexed { indices: Range<u32>, base_vertex: i32, instances: Range<u32> },
}

/// A render pass that is being recorded.
#[derive(Debug)]
pub struct RenderPass<'a> {
    descriptor: RenderPassDescriptor,
    commands: Vec<RenderCommand<'a>>,
}

impl<'a> RenderPass<'a> {
    pub closed spec fn spec_descriptor(&self) -> &RenderPassDescriptor {
        &self.descriptor
    }

    /// The commands recorded so far, oldest first.
    pub closed spec fn spec_commands(&self) -> Seq<RenderCommand<'a>> {
        self.commands@
    }

    /// A pass on the given targets with nothing recorded yet.
    pub fn begin(descriptor: RenderPassDescriptor) -> (pass: Self)
        ensures
            *pass.spec_descriptor() == descriptor,
            pass.spec_commands() == Seq::<RenderCommand<'a>>::empty(),
    {
        RenderPass { descriptor, commands: Vec::new() }
    }

    pub fn descriptor(&self) -> (descriptor: &RenderPassDescriptor)
        ensures
            descriptor == self.spec_descriptor(),
    {
        &self.descriptor
    }

    /// The commands recorded so far, oldest first.
    pub fn commands(&self) -> (commands: &Vec<RenderCommand<'a>>)
        ensures
            commands@ == self.spec_commands(),
    {
        &self.commands
    }

    pub fn set_pipeline(&mut self, pipeline: &'a RenderPipelineDescriptor)
        ensures
            final(self).spec_descriptor() == old(self).spec_descriptor(),
            final(self).spec_commands() == old(self).spec_commands().push(
                RenderCommand::SetPipeline(pipeline),
            ),
    {
        self.commands.push(RenderCommand::SetPipeline(pipeline));
    }

    pub fn set_bind_group(&mut self, index: u32, bind_group: &'a BindGroupDescriptor)
        ensures
            final(self).spec_descriptor() == old(self).spec_descriptor(),
            final(self).spec_commands() == old(self).spec_commands().push(
                RenderCommand::SetBindGroup { index, bind_group },
            ),
    {
        self.commands.push(RenderCommand::SetBindGroup { index, bind_group });
    }

    pub fn set_vertex_buffer(&mut self, slot: u32, buffer: &'a BufferInitDescriptor)
        ensures
            final(self).spec_descriptor() == old(self).spec_descriptor(),
            final(self).spec_commands() == old(self).spec_commands().push(
                RenderCommand::SetVertexBuffer { slot, buffer },
            ),
    {
        self.commands.push(RenderCommand::SetVertexBuffer { slot, buffer });
    }

    pub fn set_index_buffer(&mut self, buffer: &'a BufferInitDescriptor, index_format: IndexFormat)
        ensures
            final(self).spec_descriptor() == old(self).spec_descriptor(),
            final(self).spec_commands() == old(self).spec_commands().push(
                RenderCommand::SetIndexBuffer { buffer, index_format },
            ),
    {
        self.commands.push(RenderCommand::SetIndexBuffer { buffer, index_format });
    }

    pub fn draw_indexed(&mut self, indices: Range<u32>, base_vertex: i32, instances: Range<u32>)
        ensures
            final(self).spec_descriptor() == old(self).spec_descriptor(),
            final(self).spec_commands() == old(self).spec_commands().push(
                RenderCommand::DrawIndexed { indices, base_vertex, instances },
            ),
    {
        self.commands.push(RenderCommand::DrawIndexed { indices, base_vertex, instances });
    }
}

} // verus!
