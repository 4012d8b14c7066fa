//! The render pipeline: the shader and the fixed state around it.

use vstd::prelude::*;
use crate::binding::{BindGroupLayoutDescriptor, ShaderStages};
use crate::geometry::{IndexFormat, VertexBufferLayout};

verus! {

/// Entry point of the vertex stage in the shader source.
pub const VERTEX_ENTRY_POINT: &'static str = "vs_main";

/// Entry point of the fragment stage in the shader source.
pub const FRAGMENT_ENTRY_POINT: &'static str = "fs_main";

/// A shader module to compile from source text.
#[derive(Debug, PartialEq, Eq)]
pub struct ShaderModuleDescriptor {
    pub label: &'static str,
    pub source: String,
}

/// Describes the shader module for the given source text.
pub fn compile_shader(source: &str) -> (shader: ShaderModuleDescriptor)
    ensures
        shader.label == "Shader",
        shader.source@ == source@,
{
    ShaderModuleDescriptor { label: "Shader", source: source.to_owned() }
}

/// A range of push constants and the stages that see it.
#[derive(Clone, Copy, Debug, PartialEq, Eq, Structural)]
pub struct PushConstantRange {
    pub stages: ShaderStages,
    pub start: u32,
    pub end: u32,
}

/// The bind group layouts of a pipeline, in the order of their group
/// numbers, and its push constants.
#[derive(Debug, PartialEq, Eq)]
pub struct PipelineLayoutDescriptor {
    pub label: &'static str,
    pub bind_group_layouts: Vec<BindGroupLayoutDescriptor>,
    pub push_constant_ranges: Vec<PushConstantRange>,
}

#[derive(Clone, Copy, Debug, PartialEq, Eq, Structural)]
pub enum BlendFactor {
    Zero,
    One,
    Src,
    OneMinusSrc,
    SrcAlpha,
    OneMinusSrcAlpha,
    Dst,
    OneMinusDst,
    DstAlpha,
    OneMinusDstAlpha,
    SrcAlphaSaturated,
    Constant,
    OneMinusConstant,
}

#[derive(Clone, Copy, Debug, PartialEq, Eq, Structural)]
pub enum BlendOperation {
    Add,
    Subtract,
    ReverseSubtract,
    Min,
    Max,
}

/// How one part of a color, its RGB or its alpha, is blended.
#[derive(Clone, Copy, Debug, PartialEq, Eq, Structural)]
pub struct BlendComponent {
    pub src_factor: BlendFactor,
    pub dst_factor: BlendFactor,
    pub operation: BlendOperation,
}

impl BlendComponent {
    /// The source takes the place of what was there.
    pub open spec fn spec_replace() -> Self {
        BlendComponent {
            src_factor: BlendFactor::One,
            dst_factor: BlendFactor::Zero,
            operation: BlendOperation::Add,
        }
    }

    #[verifier::when_used_as_spec(spec_replace)]
    pub fn replace() -> (component: Self)
        ensures
            component == Self::spec_replace(),
    {
        BlendComponent {
            src_factor: BlendFactor::One,
            dst_factor: BlendFactor::Zero,
            operation: BlendOperation::Add,
        }
    }
}

/// Blending of a color target.
#[derive(Clone, Copy, Debug, PartialEq, Eq, Structural)]
pub struct BlendState {
    pub color: BlendComponent,
    pub alpha: BlendComponent,
}

/// Channels of a color target that are written.
#[derive(Clone, Copy, Debug, PartialEq, Eq, Structural)]
pub struct ColorWrites {
    pub red: bool,
    pub green: bool,
    pub blue: bool,
    pub alpha: bool,
}

impl ColorWrites {
    pub open spec fn spec_all() -> Self {
        ColorWrites { red: true, green: true, blue: true, alpha: true }
    }

    #[verifier::when_used_as_spec(spec_all)]
    pub fn all() -> (mask: Self)
        ensures
            mask == Self::spec_all(),
    {
        ColorWrites { red: true, green: true, blue: true, alpha: true }
    }
}

/// One color output of the fragment stage.
#[derive(Clone, Copy, Debug, PartialEq, Eq)]
pub struct ColorTargetState {
    pub format: wgpu::TextureFormat,
    pub blend: Option<BlendState>,
    pub write_mask: ColorWrites,
}

/// The vertex stage: its entry point and the layouts of its buffers.
#[derive(Debug, PartialEq, Eq)]
pub struct VertexState {
    pub entry_point: &'static str,
    pub buffers: Vec<VertexBufferLayout>,
}

/// The fragment stage: its entry point and its color outputs.
#[derive(Debug, PartialEq, Eq)]
pub struct FragmentState {
    pub entry_point: &'static str,
    pub targets: Vec<Option<ColorTargetState>>,
}

#[derive(Clone, Copy, Debug, PartialEq, Eq, Structural)]
pub enum PrimitiveTopology {
    PointList,
    LineList,
    LineStrip,
    TriangleList,
    TriangleStrip,
}

#[derive(Clone, Copy, Debug, PartialEq, Eq, Structural)]
pub enum FrontFace {
    Ccw,
    Cw,
}

#[derive(Clone, Copy, Debug, PartialEq, Eq, Structural)]
pub enum Face {
    Front,
    Back,
}

#[derive(Clone, Copy, Debug, PartialEq, Eq, Structural)]
pub enum PolygonMode {
    Fill,
    Line,
    Point,
}

/// How vertices become primitives and which of them are kept.
#[derive(Clone, Copy, Debug, PartialEq, Eq, Structural)]
pub struct PrimitiveState {
    pub topology: PrimitiveTopology,
    pub strip_index_format: Option<IndexFormat>,
    pub front_face: FrontFace,
    pub cull_mode: Option<Face>,
    pub polygon_mode: PolygonMode,
    pub unclipped_depth: bool,
    pub conservative: bool,
}

impl PrimitiveState {
    /// Filled triangles from a list, front faces counter-clockwise, back
    /// faces culled.
    pub open spec fn spec_solid_triangles() -> Self {
        PrimitiveState {
            topology: PrimitiveTopology::TriangleList,
            strip_index_format: None,
            front_face: FrontFace::Ccw,
            cull_mode: Some(Face::Back),
            polygon_mode: PolygonMode::Fill,
            unclipped_depth: false,
            conservative: false,
        }
    }

    #[verifier::when_used_as_spec(spec_solid_triangles)]
    pub fn solid_triangles() -> (state: Self)
        ensures
            state == Self::spec_solid_triangles(),
    {
        PrimitiveState {
            topology: PrimitiveTopology::TriangleList,
            strip_index_format: None,
            front_face: FrontFace::Ccw,
            cull_mode: Some(Face::Back),
            polygon_mode: PolygonMode::Fill,
            unclipped_depth: false,
            conservative: false,
        }
    }
}

#[derive(Clone, Copy, Debug, PartialEq, Eq, Structural)]
pub enum CompareFunction {
    Never,
    Less,
    Equal,
    LessEqual,
    Greater,
    NotEqual,
    GreaterEqual,
    Always,
}

/// Depth test of a pipeline. The stencil test is off and the depth bias is
/// zero.
#[derive(Clone, Copy, Debug, PartialEq, Eq)]
pub struct DepthStencilState {
    pub format: wgpu::TextureFormat,
    pub depth_write_enabled: bool,
    pub depth_compare: CompareFunction,
}

/// Samples per pixel and which of them are written.
#[derive(Clone, Copy, Debug, PartialEq, Eq, Structural)]
pub struct MultisampleState {
    pub count: u32,
    pub mask: u64,
    pub alpha_to_coverage_enabled: bool,
}

/// A render pipeline to create.
#[derive(Debug, PartialEq, Eq)]
pub struct RenderPipelineDescriptor {
    pub label: &'static str,
    /// Label of the pipeline layout.
    pub layout: Option<&'static str>,
    /// The module that holds both stages.
    pub shader: ShaderModuleDescriptor,
    pub vertex: VertexState,
    pub fragment: Option<FragmentState>,
    pub primitive: PrimitiveState,
    pub depth_stencil: Option<DepthStencilState>,
    pub multisample: MultisampleState,
    pub multiview: Option<u32>,
}

/// The depth test that goes with a depth format, if there is one: nearer
/// fragments win and are written.
pub open spec fn depth_test(depth_format: Option<wgpu::TextureFormat>) -> Option<
    DepthStencilState,
> {
    match depth_format {
        Some(format) => Some(
            DepthStencilState {
                format,
                depth_write_enabled: true,
                depth_compare: CompareFunction::Less,
            },
        ),
        None => None,
    }
}

impl RenderPipelineDescriptor {
    /// The fixed state of every pipeline of this library, for a pipeline
    /// layout, a color format and a depth format if there is one: the two
    /// entry points, a triangle list with back faces culled, one color target
    /// that the fragment replaces in all channels, the depth test of the
    /// depth format, and one sample per pixel.
    pub open spec fn is_standard(
        &self,
        layout: &'static str,
        color_format: wgpu::TextureFormat,
        depth_format: Option<wgpu::TextureFormat>,
    ) -> bool {
        &&& self.label == "Render Pipeline"
        &&& self.layout == Some(layout)
        &&& self.vertex.entry_point == VERTEX_ENTRY_POINT
        &&& self.fragment matches Some(fragment) && {
            &&& fragment.entry_point == FRAGMENT_ENTRY_POINT
            &&& fragment.targets@ == seq![
                Some(
                    ColorTargetState {
                        format: color_format,
                        blend: Some(
                            BlendState {
                                color: BlendComponent::spec_replace(),
                                alpha: BlendComponent::spec_replace(),
                            },
                        ),
                        write_mask: ColorWrites::spec_all(),
                    },
                ),
            ]
        }
        &&& self.primitive == PrimitiveState::spec_solid_triangles()
        &&& self.depth_stencil == depth_test(depth_format)
        &&& self.multisample == (MultisampleState {
            count: 1,
            mask: 0xFFFF_FFFF_FFFF_FFFF,
            alpha_to_coverage_enabled: false,
        })
        &&& self.multiview is None
    }
}

/// Describes the render pipeline for a shader module and the layouts of its
/// vertex buffers, with the fixed state of this library.
pub fn create_pipeline(
    layout: &PipelineLayoutDescriptor,
    color_format: wgpu::TextureFormat,
    depth_format: Option<wgpu::TextureFormat>,
    vertex_layouts: Vec<VertexBufferLayout>,
    shader: ShaderModuleDescriptor,
) -> (pipeline: RenderPipelineDescriptor)
    ensures
        pipeline.is_standard(layout.label, color_format, depth_format),
        pipeline.shader == shader,
        pipeline.vertex.buffers == vertex_layouts,
{
    let mut targets: Vec<Option<ColorTargetState>> = Vec::new();
    targets.push(
        Some(
            ColorTargetState {
                format: color_format,
                blend: Some(
                    BlendState { color: BlendComponent::replace(), alpha: BlendComponent::replace() },
                ),
                write_mask: ColorWrites::all(),
            },
        ),
    );
    let depth_stencil = match depth_format {
        Some(format) => Some(
            DepthStencilState {
                format,
                depth_write_enabled: true,
                depth_compare: CompareFunction::Less,
            },
        ),
        None => None,
    };
    RenderPipelineDescriptor {
        label: "Render Pipeline",
        layout: Some(layout.label),
        shader,
        vertex: VertexState { entry_point: VERTEX_ENTRY_POINT, buffers: vertex_layouts },
        fragment: Some(FragmentState { entry_point: FRAGMENT_ENTRY_POINT, targets }),
        primitive: PrimitiveState::solid_triangles(),
        depth_stencil,
        multisample: MultisampleState {
            count: 1,
            mask: 0xFFFF_FFFF_FFFF_FFFF,
            alpha_to_coverage_enabled: false,
        },
        multiview: None,
    }
}

} // verus!
