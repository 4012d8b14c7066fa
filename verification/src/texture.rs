//! Textures: an image, a view of it and a sampler, as descriptions.
//!
//! A texture is made from an encoded image, from an image that is already
//! decoded, or as a depth target of the size of the surface.

use vstd::prelude::*;
use crate::pipeline::CompareFunction;
use crate::surface::{SurfaceConfiguration, TextureUsages};

verus! {

/// Trusted: the type `image::ImageError`, an error of the image decoder.
/// Nothing is claimed of its values: the library hands the error on unread.
#[verifier::external_type_specification]
#[verifier::external_body]
pub struct ExImageError(image::ImageError);

/// The pixel formats that the library itself picks for a texture.
#[derive(Clone, Copy, Debug, PartialEq, Eq, Structural)]
pub enum PixelFormat {
    /// Four channels of 8 bits, read as they are.
    Rgba8Unorm,
    /// Four channels of 8 bits, the colors read as sRGB.
    Rgba8UnormSrgb,
    /// One channel of depth, a 32-bit float.
    Depth32Float,
}

/// The format of every depth texture.
pub const DEPTH_FORMAT: PixelFormat = PixelFormat::Depth32Float;

/// Bits of the 32-bit float 0.0.
pub const LOD_ZERO: u32 = 0;

/// Bits of the greatest finite 32-bit float.
pub const LOD_MAX: u32 = 0x7F7F_FFFF;

/// Bits of the 32-bit float -100.
pub const LOD_MINUS_HUNDRED: u32 = 0xC2C8_0000;

/// Bits of the 32-bit float 100.
pub const LOD_HUNDRED: u32 = 0x42C8_0000;

/// Most pixels a row can have for its bytes to be counted in 32 bits.
pub const MAX_WIDTH: u32 = 0x3FFF_FFFF;

/// Size of a texture in texels.
#[derive(Clone, Copy, Debug, PartialEq, Eq, Structural)]
pub struct Extent3d {
    pub width: u32,
    pub height: u32,
    pub depth_or_array_layers: u32,
}

#[derive(Clone, Copy, Debug, PartialEq, Eq, Structural)]
pub enum TextureDimension {
    D1,
    D2,
    D3,
}

/// A texture to create.
#[derive(Debug, PartialEq, Eq)]
pub struct TextureDescriptor {
    pub label: Option<String>,
    pub size: Extent3d,
    pub mip_level_count: u32,
    pub sample_count: u32,
    pub dimension: TextureDimension,
    pub format: PixelFormat,
    pub usage: TextureUsages,
}

/// How a sampler treats coordinates outside the texture.
#[derive(Clone, Copy, Debug, PartialEq, Eq, Structural)]
pub enum AddressMode {
    ClampToEdge,
    Repeat,
    MirrorRepeat,
    ClampToBorder,
}

/// How a sampler picks between texels.
#[derive(Clone, Copy, Debug, PartialEq, Eq, Structural)]
pub enum FilterMode {
    Nearest,
    Linear,
}

/// A sampler to create. The two clamps of the level of detail are 32-bit
/// floats in their bits.
#[derive(Clone, Copy, Debug, PartialEq, Eq, Structural)]
pub struct SamplerDescriptor {
    pub address_mode_u: AddressMode,
    pub address_mode_v: AddressMode,
    pub address_mode_w: AddressMode,
    pub mag_filter: FilterMode,
    pub min_filter: FilterMode,
    pub mipmap_filter: FilterMode,
    pub lod_min_clamp: u32,
    pub lod_max_clamp: u32,
    pub compare: Option<CompareFunction>,
}

/// How the rows of an image lie in the bytes that are written to a texture.
#[derive(Clone, Copy, Debug, PartialEq, Eq, Structural)]
pub struct ImageDataLayout {
    pub offset: u64,
    /// Bytes from one row to the next; `None` for an image without width.
    pub bytes_per_row: Option<u32>,
    /// Rows of one image; `None` for an image without height.
    pub rows_per_image: Option<u32>,
}

/// The first contents of a texture: bytes, how their rows lie, and the
/// extent they fill. They go to the first mip level, from the origin, into
/// all aspects.
#[derive(Debug, PartialEq, Eq)]
pub struct TextureWrite {
    pub data: Vec<u8>,
    pub layout: ImageDataLayout,
    pub size: Extent3d,
}

/// A decoded image: its size in pixels and its pixels row by row, four
/// bytes each, red, green, blue and alpha.
#[derive(Debug, PartialEq, Eq)]
pub struct RgbaImage {
    pub width: u32,
    pub height: u32,
    pub pixels: Vec<u8>,
}

impl RgbaImage {
    /// Bytes that the pixels of an image of this size take.
    pub open spec fn byte_count(&self) -> int {
        4 * self.width * self.height
    }

    /// The image has four bytes for each of its pixels, no more and no
    /// fewer.
    pub open spec fn wf(&self) -> bool {
        self.pixels@.len() == self.byte_count()
    }
}

/// Why a texture could not be made.
#[derive(Debug)]
pub enum TextureError {
    /// The bytes are no image that the decoder reads.
    Decode(image::ImageError),
    /// A row of the image has more bytes than 32 bits count.
    TooWide { width: u32 },
    /// The image does not have four bytes for each of its pixels: it should
    /// have `expected` bytes and has `found`.
    WrongLength { expected: u64, found: u64 },
}

/// A view of a texture: which mip levels and which layers it shows. `None`
/// stands for all that are left.
#[derive(Clone, Copy, Debug, PartialEq, Eq, Structural)]
pub struct TextureViewDescriptor {
    pub base_mip_level: u32,
    pub mip_level_count: Option<u32>,
    pub base_array_layer: u32,
    pub array_layer_count: Option<u32>,
}

/// The view of a whole texture.
pub open spec fn whole_view() -> TextureViewDescriptor {
    TextureViewDescriptor {
        base_mip_level: 0,
        mip_level_count: None,
        base_array_layer: 0,
        array_layer_count: None,
    }
}

/// A texture with a view and a sampler, and what it holds at first, if
/// anything.
#[derive(Debug, PartialEq, Eq)]
pub struct Texture {
    pub texture: TextureDescriptor,
    pub view: TextureViewDescriptor,
    pub sampler: SamplerDescriptor,
    pub contents: Option<TextureWrite>,
}

/// What `image::load_from_memory` makes of an encoded image: width,
/// height, and the pixels as RGBA of 8 bits a channel; `None` where the
/// decoder rejects the bytes. The library knows of it only what
/// `decode_rgba` tells.
pub uninterp spec fn decoded_rgba(bytes: Seq<u8>) -> Option<(u32, u32, Seq<u8>)>;

/// Trusted: `image::load_from_memory`, read out with `DynamicImage::width`,
/// `height` and `to_rgba8`. The crate is built with its PNG decoder alone.
/// It tells the format by the first bytes and hands bytes of any other
/// format back as an error; a PNG it decodes on the calling thread, within
/// its own fixed limit on the size of the decoded image. The outcome is
/// therefore a function of the bytes alone. On success the size is that of
/// the image and the pixels are its copy in RGBA of 8 bits, which the crate
/// allocates with four bytes for each pixel. On failure the decoder's error
/// comes back.
#[verifier::external_body]
fn decode_rgba(bytes: &[u8]) -> (image: Result<RgbaImage, image::ImageError>)
    ensures
        match image {
            Ok(img) => {
                &&& decoded_rgba(bytes@) == Some((img.width, img.height, img.pixels@))
                &&& img.wf()
            },
            Err(_) => decoded_rgba(bytes@) is None,
        },
{
    let img = image::load_from_memory(bytes)?;
    Ok(RgbaImage { width: img.width(), height: img.height(), pixels: img.to_rgba8().into_raw() })
}

/// The sampler of a depth texture: clamped at the edges, linear within a
/// level, and comparing with less-or-equal.
pub open spec fn depth_sampler() -> SamplerDescriptor {
    SamplerDescriptor {
        address_mode_u: AddressMode::ClampToEdge,
        address_mode_v: AddressMode::ClampToEdge,
        address_mode_w: AddressMode::ClampToEdge,
        mag_filter: FilterMode::Linear,
        min_filter: FilterMode::Linear,
        mipmap_filter: FilterMode::Nearest,
        lod_min_clamp: LOD_MINUS_HUNDRED,
        lod_max_clamp: LOD_HUNDRED,
        compare: Some(CompareFunction::LessEqual),
    }
}

/// The sampler of an image texture: clamped at the edges, linear when
/// magnified and nearest when minified.
pub open spec fn image_sampler() -> SamplerDescriptor {
    SamplerDescriptor {
        address_mode_u: AddressMode::ClampToEdge,
        address_mode_v: AddressMode::ClampToEdge,
        address_mode_w: AddressMode::ClampToEdge,
        mag_filter: FilterMode::Linear,
        min_filter: FilterMode::Nearest,
        mipmap_filter: FilterMode::Nearest,
        lod_min_clamp: LOD_ZERO,
        lod_max_clamp: LOD_MAX,
        compare: None,
    }
}

/// The format of an image texture. A normal map holds directions and is
/// read as it is; any other image holds colors in sRGB.
pub open spec fn image_format(is_normal_map: bool) -> PixelFormat {
    if is_normal_map {
        PixelFormat::Rgba8Unorm
    } else {
        PixelFormat::Rgba8UnormSrgb
    }
}

/// `n` if it is not zero.
pub open spec fn non_zero(n: u32) -> Option<u32> {
    if n == 0 {
        None
    } else {
        Some(n)
    }
}

/// A label as a description keeps it.
pub open spec fn label_matches(kept: Option<String>, label: Option<&str>) -> bool {
    match label {
        Some(text) => kept matches Some(k) && k@ == text@,
        None => kept is None,
    }
}

impl Texture {
    /// The texture of an image of `width` by `height` pixels: one layer and
    /// one mip level of the size of the image, to be sampled and copied
    /// into, filled with the pixels of the image in rows of four bytes a
    /// pixel.
    pub open spec fn is_image(
        &self,
        width: u32,
        height: u32,
        pixels: Seq<u8>,
        label: Option<&str>,
        is_normal_map: bool,
    ) -> bool {
        let size = Extent3d { width, height, depth_or_array_layers: 1 };
        &&& label_matches(self.texture.label, label)
        &&& self.texture.size == size
        &&& self.texture.mip_level_count == 1
        &&& self.texture.sample_count == 1
        &&& self.texture.dimension == TextureDimension::D2
        &&& self.texture.format == image_format(is_normal_map)
        &&& self.texture.usage == (TextureUsages {
            texture_binding: true,
            copy_dst: true,
            ..TextureUsages::spec_empty()
        })
        &&& self.view == whole_view()
        &&& self.sampler == image_sampler()
        &&& self.contents matches Some(write) && {
            &&& write.data@ == pixels
            &&& write.layout == (ImageDataLayout {
                offset: 0,
                bytes_per_row: non_zero((4 * width) as u32),
                rows_per_image: non_zero(height),
            })
            &&& write.size == size
        }
    }

    /// The depth texture of a surface: one layer and one mip level of the
    /// size the surface is configured for, in the depth format, to be drawn
    /// to and sampled. It starts out empty.
    pub fn create_depth_texture(config: &SurfaceConfiguration, label: &str) -> (depth: Self)
        ensures
            label_matches(depth.texture.label, Some(label)),
            depth.texture.size == (Extent3d {
                width: config.width,
                height: config.height,
                depth_or_array_layers: 1,
            }),
            depth.texture.mip_level_count == 1,
            depth.texture.sample_count == 1,
            depth.texture.dimension == TextureDimension::D2,
            depth.texture.format == DEPTH_FORMAT,
            depth.texture.usage == (TextureUsages {
                render_attachment: true,
                texture_binding: true,
                ..TextureUsages::spec_empty()
            }),
            depth.view == whole_view(),
            depth.sampler == depth_sampler(),
            depth.contents is None,
    {
        let size = Extent3d {
            width: config.width,
            height: config.height,
            depth_or_array_layers: 1,
        };
        let texture = TextureDescriptor {
            label: Some(label.to_owned()),
            size,
            mip_level_count: 1,
            sample_count: 1,
            dimension: TextureDimension::D2,
            format: DEPTH_FORMAT,
            usage: TextureUsages {
                render_attachment: true,
                texture_binding: true,
                ..TextureUsages::empty()
            },
        };
        let sampler = SamplerDescriptor {
            address_mode_u: AddressMode::ClampToEdge,
            address_mode_v: AddressMode::ClampToEdge,
            address_mode_w: AddressMode::ClampToEdge,
            mag_filter: FilterMode::Linear,
            min_filter: FilterMode::Linear,
            mipmap_filter: FilterMode::Nearest,
            lod_min_clamp: LOD_MINUS_HUNDRED,
            lod_max_clamp: LOD_HUNDRED,
            compare: Some(CompareFunction::LessEqual),
        };
        let view = TextureViewDescriptor {
            base_mip_level: 0,
            mip_level_count: None,
            base_array_layer: 0,
            array_layer_count: None,
        };
        Texture { texture, view, sampler, contents: None }
    }

    /// Decodes an image and makes a texture of it. Bytes that the decoder
    /// rejects give its error; what it decodes goes to `from_image`, and has
    /// four bytes for each pixel.
    pub fn from_bytes(bytes: &[u8], label: &str, is_normal_map: bool) -> (texture: Result<
        Self,
        TextureError,
    >)
        ensures
            match decoded_rgba(bytes@) {
                None => texture matches Err(TextureError::Decode(_)),
                Some((width, height, pixels)) => if width > MAX_WIDTH {
                    texture matches Err(TextureError::TooWide { width: w }) && w == width
                } else {
                    texture matches Ok(t) && t.is_image(
                        width,
                        height,
                        pixels,
                        Some(label),
                        is_normal_map,
                    ) && pixels.len() == 4 * width * height
                },
            },
    {
        match decode_rgba(bytes) {
            Err(error) => Err(TextureError::Decode(error)),
            Ok(img) => Self::from_image(img, Some(label), is_normal_map),
        }
    }

    /// Makes the texture of a decoded image. An image so wide that the
    /// bytes of a row cannot be counted in 32 bits is refused, and so is one
    /// that does not hold four bytes for each of its pixels.
    pub fn from_image(img: RgbaImage, label: Option<&str>, is_normal_map: bool) -> (texture:
        Result<Self, TextureError>)
        ensures
            img.width > MAX_WIDTH ==> (texture matches Err(TextureError::TooWide { width })
                && width == img.width),
            img.width <= MAX_WIDTH && !img.wf() ==> (texture matches Err(
                TextureError::WrongLength { expected, found },
            ) && expected == img.byte_count() && found == img.pixels@.len()),
            img.width <= MAX_WIDTH && img.wf() ==> (texture matches Ok(t) && t.is_image(
                img.width,
                img.height,
                img.pixels@,
                label,
                is_normal_map,
            )),
    {
        if img.width > MAX_WIDTH {
            return Err(TextureError::TooWide { width: img.width });
        }
        let row_bytes: u64 = 4 * (img.width as u64);
        assert(row_bytes * img.height <= 0xFFFF_FFFC * 0xFFFF_FFFF) by (nonlinear_arith)
            requires
                0 <= row_bytes <= 0xFFFF_FFFC,
                0 <= img.height <= 0xFFFF_FFFF,
        ;
        let expected: u64 = row_bytes * (img.height as u64);
        assert(expected == img.byte_count()) by (nonlinear_arith)
            requires
                expected == row_bytes * img.height,
                row_bytes == 4 * img.width,
                img.byte_count() == 4 * img.width * img.height,
        ;
        let found: u64 = img.pixels.len() as u64;
        if found != expected {
            return Err(TextureError::WrongLength { expected, found });
        }
        let size = Extent3d { width: img.width, height: img.height, depth_or_array_layers: 1 };
        let kept: Option<String> = match label {
            Some(text) => Some(text.to_owned()),
            None => None,
        };
        let texture = TextureDescriptor {
            label: kept,
            size,
            mip_level_count: 1,
            sample_count: 1,
            dimension: TextureDimension::D2,
            format: if is_normal_map {
                PixelFormat::Rgba8Unorm
            } else {
                PixelFormat::Rgba8UnormSrgb
            },
            usage: TextureUsages { texture_binding: true, copy_dst: true, ..TextureUsages::empty() },
        };
        let row: u32 = 4 * img.width;
        let layout = ImageDataLayout {
            offset: 0,
            bytes_per_row: if row == 0 {
                None
            } else {
                Some(row)
            },
            rows_per_image: if img.height == 0 {
                None
            } else {
                Some(img.height)
            },
        };
        let sampler = SamplerDescriptor {
            address_mode_u: AddressMode::ClampToEdge,
            address_mode_v: AddressMode::ClampToEdge,
            address_mode_w: AddressMode::ClampToEdge,
            mag_filter: FilterMode::Linear,
            min_filter: FilterMode::Nearest,
            mipmap_filter: FilterMode::Nearest,
            lod_min_clamp: LOD_ZERO,
            lod_max_clamp: LOD_MAX,
            compare: None,
        };
        let view = TextureViewDescriptor {
            base_mip_level: 0,
            mip_level_count: None,
            base_array_layer: 0,
            array_layer_count: None,
        };
        Ok(
            Texture {
                texture,
                view,
                sampler,
                contents: Some(TextureWrite { data: img.pixels, layout, size }),
            },
        )
    }
}

} // verus!
