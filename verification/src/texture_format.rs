//! Texture pixel formats, mirroring wgpu's `TextureFormat` variant for
//! variant, and what this engine needs to know about each: whether it is
//! sRGB-encoded, and its byte size per pixel where it has a linear layout.

use vstd::prelude::*;

verus! {

/// Size of the blocks of an ASTC-compressed format.
#[derive(Copy, Clone, Debug, PartialEq, Eq, Hash, Structural)]
pub enum AstcBlock {
    B4x4,
    B5x4,
    B5x5,
    B6x5,
    B6x6,
    B8x5,
    B8x6,
    B8x8,
    B10x5,
    B10x6,
    B10x8,
    B10x10,
    B12x10,
    B12x12,
}

/// How the channels of an ASTC-compressed format are encoded.
#[derive(Copy, Clone, Debug, PartialEq, Eq, Hash, Structural)]
pub enum AstcChannel {
    Unorm,
    UnormSrgb,
    Hdr,
}

/// A texture's pixel format.
#[derive(Copy, Clone, Debug, PartialEq, Eq, Hash, Structural)]
pub enum TextureFormat {
    R8Unorm,
    R8Snorm,
    R8Uint,
    R8Sint,
    R16Uint,
    R16Sint,
    R16Unorm,
    R16Snorm,
    R16Float,
    Rg8Unorm,
    Rg8Snorm,
    Rg8Uint,
    Rg8Sint,
    R32Uint,
    R32Sint,
    R32Float,
    Rg16Uint,
    Rg16Sint,
    Rg16Unorm,
    Rg16Snorm,
    Rg16Float,
    Rgba8Unorm,
    Rgba8UnormSrgb,
    Rgba8Snorm,
    Rgba8Uint,
    Rgba8Sint,
    Bgra8Unorm,
    Bgra8UnormSrgb,
    Rgb9e5Ufloat,
    Rgb10a2Uint,
    Rgb10a2Unorm,
    Rg11b10Ufloat,
    R64Uint,
    Rg32Uint,
    Rg32Sint,
    Rg32Float,
    Rgba16Uint,
    Rgba16Sint,
    Rgba16Unorm,
    Rgba16Snorm,
    Rgba16Float,
    Rgba32Uint,
    Rgba32Sint,
    Rgba32Float,
    Stencil8,
    Depth16Unorm,
    Depth24Plus,
    Depth24PlusStencil8,
    Depth32Float,
    Depth32FloatStencil8,
    NV12,
    P010,
    Bc1RgbaUnorm,
    Bc1RgbaUnormSrgb,
    Bc2RgbaUnorm,
    Bc2RgbaUnormSrgb,
    Bc3RgbaUnorm,
    Bc3RgbaUnormSrgb,
    Bc4RUnorm,
    Bc4RSnorm,
    Bc5RgUnorm,
    Bc5RgSnorm,
    Bc6hRgbUfloat,
    Bc6hRgbFloat,
    Bc7RgbaUnorm,
    Bc7RgbaUnormSrgb,
    Etc2Rgb8Unorm,
    Etc2Rgb8UnormSrgb,
    Etc2Rgb8A1Unorm,
    Etc2Rgb8A1UnormSrgb,
    Etc2Rgba8Unorm,
    Etc2Rgba8UnormSrgb,
    EacR11Unorm,
    EacR11Snorm,
    EacRg11Unorm,
    EacRg11Snorm,
    Astc { block: AstcBlock, channel: AstcChannel },
}

/// The format stores sRGB-encoded color.
pub open spec fn spec_is_srgb(format: TextureFormat) -> bool {
    match format {
        TextureFormat::Rgba8UnormSrgb => true,
        TextureFormat::Bgra8UnormSrgb => true,
        TextureFormat::Bc1RgbaUnormSrgb => true,
        TextureFormat::Bc2RgbaUnormSrgb => true,
        TextureFormat::Bc3RgbaUnormSrgb => true,
        TextureFormat::Bc7RgbaUnormSrgb => true,
        TextureFormat::Etc2Rgb8UnormSrgb => true,
        TextureFormat::Etc2Rgb8A1UnormSrgb => true,
        TextureFormat::Etc2Rgba8UnormSrgb => true,
        TextureFormat::Astc { channel, .. } => channel == AstcChannel::UnormSrgb,
        _ => false,
    }
}

/// The linear format whose sRGB-encoded twin `format` is: the same
/// layout with its color channels stored linearly (`Bgra8UnormSrgb` is the
/// twin of `Bgra8Unorm`, an ASTC `UnormSrgb` format of the `Unorm` format
/// with the same block); `None` for a format that is no such twin.
pub open spec fn linear_twin(format: TextureFormat) -> Option<TextureFormat> {
    match format {
        TextureFormat::Rgba8UnormSrgb => Some(TextureFormat::Rgba8Unorm),
        TextureFormat::Bgra8UnormSrgb => Some(TextureFormat::Bgra8Unorm),
        TextureFormat::Bc1RgbaUnormSrgb => Some(TextureFormat::Bc1RgbaUnorm),
        TextureFormat::Bc2RgbaUnormSrgb => Some(TextureFormat::Bc2RgbaUnorm),
        TextureFormat::Bc3RgbaUnormSrgb => Some(TextureFormat::Bc3RgbaUnorm),
        TextureFormat::Bc7RgbaUnormSrgb => Some(TextureFormat::Bc7RgbaUnorm),
        TextureFormat::Etc2Rgb8UnormSrgb => Some(TextureFormat::Etc2Rgb8Unorm),
        TextureFormat::Etc2Rgb8A1UnormSrgb => Some(TextureFormat::Etc2Rgb8A1Unorm),
        TextureFormat::Etc2Rgba8UnormSrgb => Some(TextureFormat::Etc2Rgba8Unorm),
        TextureFormat::Astc { block, channel: AstcChannel::UnormSrgb } =>
            Some(TextureFormat::Astc { block, channel: AstcChannel::Unorm }),
        _ => None,
    }
}

/// A format is sRGB exactly when it is the sRGB twin of a linear format;
/// the twin is not itself sRGB, has the same pixel size, and no two sRGB
/// formats share one.
pub proof fn lemma_srgb_twins(format: TextureFormat, other: TextureFormat)
    ensures
        spec_is_srgb(format) <==> linear_twin(format) is Some,
        linear_twin(format) matches Some(l) ==> {
            &&& l != format
            &&& !spec_is_srgb(l)
            &&& linear_twin(l) is None
            &&& spec_bytes_per_pixel(l) == spec_bytes_per_pixel(format)
        },
        linear_twin(format) is Some && linear_twin(format) == linear_twin(other) ==> format == other,
{
}

/// Bytes per pixel of every format with a plain linear CPU-side layout;
/// `None` for block-compressed, multi-planar and depth/stencil formats.
pub open spec fn spec_bytes_per_pixel(format: TextureFormat) -> Option<u32> {
    match format {
        TextureFormat::R8Unorm
        | TextureFormat::R8Snorm
        | TextureFormat::R8Uint
        | TextureFormat::R8Sint => Some(1),
        TextureFormat::R16Uint
        | TextureFormat::R16Sint
        | TextureFormat::R16Unorm
        | TextureFormat::R16Snorm
        | TextureFormat::R16Float
        | TextureFormat::Rg8Unorm
        | TextureFormat::Rg8Snorm
        | TextureFormat::Rg8Uint
        | TextureFormat::Rg8Sint => Some(2),
        TextureFormat::R32Uint
        | TextureFormat::R32Sint
        | TextureFormat::R32Float
        | TextureFormat::Rg16Uint
        | TextureFormat::Rg16Sint
        | TextureFormat::Rg16Unorm
        | TextureFormat::Rg16Snorm
        | TextureFormat::Rg16Float
        | TextureFormat::Rgba8Unorm
        | TextureFormat::Rgba8UnormSrgb
        | TextureFormat::Rgba8Snorm
        | TextureFormat::Rgba8Uint
        | TextureFormat::Rgba8Sint
        | TextureFormat::Bgra8Unorm
        | TextureFormat::Bgra8UnormSrgb
        | TextureFormat::Rgb9e5Ufloat
        | TextureFormat::Rgb10a2Uint
        | TextureFormat::Rgb10a2Unorm
        | TextureFormat::Rg11b10Ufloat => Some(4),
        TextureFormat::R64Uint
        | TextureFormat::Rg32Uint
        | TextureFormat::Rg32Sint
        | TextureFormat::Rg32Float
        | TextureFormat::Rgba16Uint
        | TextureFormat::Rgba16Sint
        | TextureFormat::Rgba16Unorm
        | TextureFormat::Rgba16Snorm
        | TextureFormat::Rgba16Float => Some(8),
        TextureFormat::Rgba32Uint
        | TextureFormat::Rgba32Sint
        | TextureFormat::Rgba32Float => Some(16),
        _ => None,
    }
}

/// The format holds depth and/or stencil data.
pub open spec fn spec_is_depth_stencil(format: TextureFormat) -> bool {
    match format {
        TextureFormat::Stencil8
        | TextureFormat::Depth16Unorm
        | TextureFormat::Depth24Plus
        | TextureFormat::Depth24PlusStencil8
        | TextureFormat::Depth32Float
        | TextureFormat::Depth32FloatStencil8 => true,
        _ => false,
    }
}

impl TextureFormat {
    /// Whether this format stores sRGB-encoded color.
    pub fn is_srgb(&self) -> (r: bool)
        ensures r == spec_is_srgb(*self),
    {
        match self {
            TextureFormat::Rgba8UnormSrgb => true,
            TextureFormat::Bgra8UnormSrgb => true,
            TextureFormat::Bc1RgbaUnormSrgb => true,
            TextureFormat::Bc2RgbaUnormSrgb => true,
            TextureFormat::Bc3RgbaUnormSrgb => true,
            TextureFormat::Bc7RgbaUnormSrgb => true,
            TextureFormat::Etc2Rgb8UnormSrgb => true,
            TextureFormat::Etc2Rgb8A1UnormSrgb => true,
            TextureFormat::Etc2Rgba8UnormSrgb => true,
            TextureFormat::Astc { channel, .. } => match channel {
                AstcChannel::UnormSrgb => true,
                _ => false,
            },
            _ => false,
        }
    }

    /// Whether this format holds depth and/or stencil data.
    pub fn is_depth_stencil(&self) -> (r: bool)
        ensures r == spec_is_depth_stencil(*self),
    {
        match self {
            TextureFormat::Stencil8
            | TextureFormat::Depth16Unorm
            | TextureFormat::Depth24Plus
            | TextureFormat::Depth24PlusStencil8
            | TextureFormat::Depth32Float
            | TextureFormat::Depth32FloatStencil8 => true,
            _ => false,
        }
    }
}

/// Bytes per pixel of `format` — `None` for the formats with no linear
/// CPU-side pixel layout (block-compressed, multi-planar, depth/stencil),
/// which cannot be uploaded row by row from plain pixel bytes.
pub fn bytes_per_pixel(format: TextureFormat) -> (r: Option<u32>)
    ensures r == spec_bytes_per_pixel(format),
{
    match format {
        TextureFormat::R8Unorm
        | TextureFormat::R8Snorm
        | TextureFormat::R8Uint
        | TextureFormat::R8Sint => Some(1),
        TextureFormat::R16Uint
        | TextureFormat::R16Sint
        | TextureFormat::R16Unorm
        | TextureFormat::R16Snorm
        | TextureFormat::R16Float
        | TextureFormat::Rg8Unorm
        | TextureFormat::Rg8Snorm
        | TextureFormat::Rg8Uint
        | TextureFormat::Rg8Sint => Some(2),
        TextureFormat::R32Uint
        | TextureFormat::R32Sint
        | TextureFormat::R32Float
        | TextureFormat::Rg16Uint
        | TextureFormat::Rg16Sint
        | TextureFormat::Rg16Unorm
        | TextureFormat::Rg16Snorm
        | TextureFormat::Rg16Float
        | TextureFormat::Rgba8Unorm
        | TextureFormat::Rgba8UnormSrgb
        | TextureFormat::Rgba8Snorm
        | TextureFormat::Rgba8Uint
        | TextureFormat::Rgba8Sint
        | TextureFormat::Bgra8Unorm
        | TextureFormat::Bgra8UnormSrgb
        | TextureFormat::Rgb9e5Ufloat
        | TextureFormat::Rgb10a2Uint
        | TextureFormat::Rgb10a2Unorm
        | TextureFormat::Rg11b10Ufloat => Some(4),
        TextureFormat::R64Uint
        | TextureFormat::Rg32Uint
        | TextureFormat::Rg32Sint
        | TextureFormat::Rg32Float
        | TextureFormat::Rgba16Uint
        | TextureFormat::Rgba16Sint
        | TextureFormat::Rgba16Unorm
        | TextureFormat::Rgba16Snorm
        | TextureFormat::Rgba16Float => Some(8),
        TextureFormat::Rgba32Uint
        | TextureFormat::Rgba32Sint
        | TextureFormat::Rgba32Float => Some(16),
        _ => None,
    }
}

} // verus!
