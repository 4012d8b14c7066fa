//! The drawable surface: its size in pixels and how it is configured.

use vstd::prelude::*;

verus! {

/// Trusted: the type `wgpu::TextureFormat`, the pixel format of a texture
/// as the device names it. Nothing is claimed of its values: the library
/// hands a format on and never looks inside one.
#[verifier::external_type_specification]
#[verifier::external_body]
pub struct ExTextureFormat(wgpu::TextureFormat);

/// A size in physical pixels.
#[derive(Clone, Copy, Debug, PartialEq, Eq, Structural)]
pub struct PhysicalSize {
    pub width: u32,
    pub height: u32,
}

impl PhysicalSize {
    /// A size can be drawn to when neither side is zero.
    pub open spec fn is_drawable(self) -> bool {
        self.width > 0 && self.height > 0
    }

    pub fn new(width: u32, height: u32) -> (size: Self)
        ensures
            size == (PhysicalSize { width, height }),
    {
        PhysicalSize { width, height }
    }

    /// Whether a surface of this size can be configured. A minimized window
    /// reports a size with a zero side, which cannot.
    pub fn drawable(&self) -> (yes: bool)
        ensures
            yes == self.is_drawable(),
    {
        self.width > 0 && self.height > 0
    }
}

/// What a texture may be used for.
#[derive(Clone, Copy, Debug, PartialEq, Eq, Structural)]
pub struct TextureUsages {
    pub copy_src: bool,
    pub copy_dst: bool,
    pub texture_binding: bool,
    pub storage_binding: bool,
    pub render_attachment: bool,
}

impl TextureUsages {
    /// No use at all.
    pub open spec fn spec_empty() -> Self {
        TextureUsages {
            copy_src: false,
            copy_dst: false,
            texture_binding: false,
            storage_binding: false,
            render_attachment: false,
        }
    }

    /// Output of a render pass, and nothing else.
    pub open spec fn spec_render_attachment() -> Self {
        TextureUsages { render_attachment: true, ..Self::spec_empty() }
    }

    #[verifier::when_used_as_spec(spec_empty)]
    pub fn empty() -> (usage: Self)
        ensures
            usage == Self::spec_empty(),
    {
        TextureUsages {
            copy_src: false,
            copy_dst: false,
            texture_binding: false,
            storage_binding: false,
            render_attachment: false,
        }
    }

    #[verifier::when_used_as_spec(spec_render_attachment)]
    pub fn render_attachment() -> (usage: Self)
        ensures
            usage == Self::spec_render_attachment(),
    {
        TextureUsages { render_attachment: true, ..Self::empty() }
    }
}

/// How finished frames reach the screen.
#[derive(Clone, Copy, Debug, PartialEq, Eq, Structural)]
pub enum PresentMode {
    AutoVsync,
    AutoNoVsync,
    Fifo,
    FifoRelaxed,
    Immediate,
    Mailbox,
}

/// How the surface's alpha channel is composed with what lies behind it.
#[derive(Clone, Copy, Debug, PartialEq, Eq, Structural)]
pub enum CompositeAlphaMode {
    Auto,
    Opaque,
    PreMultiplied,
    PostMultiplied,
    Inherit,
}

/// Configuration of the drawable surface.
#[derive(Clone, Copy, Debug, PartialEq, Eq)]
pub struct SurfaceConfiguration {
    pub usage: TextureUsages,
    pub format: wgpu::TextureFormat,
    pub width: u32,
    pub height: u32,
    pub present_mode: PresentMode,
    pub alpha_mode: CompositeAlphaMode,
}

impl SurfaceConfiguration {
    /// The configuration of a surface of the given format and size: a render
    /// target, presented first in first out, with the platform's own alpha
    /// composition.
    pub open spec fn spec_new(format: wgpu::TextureFormat, size: PhysicalSize) -> Self {
        SurfaceConfiguration {
            usage: TextureUsages::spec_render_attachment(),
            format,
            width: size.width,
            height: size.height,
            present_mode: PresentMode::Fifo,
            alpha_mode: CompositeAlphaMode::Auto,
        }
    }

    #[verifier::when_used_as_spec(spec_new)]
    pub fn new(format: wgpu::TextureFormat, size: PhysicalSize) -> (config: Self)
        ensures
            config == Self::spec_new(format, size),
    {
        SurfaceConfiguration {
            usage: TextureUsages::render_attachment(),
            format,
            width: size.width,
            height: size.height,
            present_mode: PresentMode::Fifo,
            alpha_mode: CompositeAlphaMode::Auto,
        }
    }

    /// The size the surface is configured for.
    pub open spec fn spec_size(&self) -> PhysicalSize {
        PhysicalSize { width: self.width, height: self.height }
    }

    #[verifier::when_used_as_spec(spec_size)]
    pub fn size(&self) -> (size: PhysicalSize)
        ensures
            size == self.spec_size(),
    {
        PhysicalSize { width: self.width, height: self.height }
    }
}

/// The format a new surface takes: the first of those the adapter supports
/// for it, if it supports any.
pub fn preferred_format(supported: &[wgpu::TextureFormat]) -> (format: Option<wgpu::TextureFormat>)
    ensures
        supported@.len() == 0 ==> format is None,
        supported@.len() > 0 ==> format == Some(supported@[0]),
{
    if supported.len() > 0 {
        Some(supported[0])
    } else {
        None
    }
}

} // verus!
