//! Which texture formats may take part in a texture copy.
use vstd::prelude::*;

verus! {

/// Pixel format of a texture.
#[derive(Clone, Copy, Debug, PartialEq, Eq, Structural)]
pub enum TextureFormat {
    R8Unorm,
    R8Snorm,
    R8Uint,
    R8Sint,
    R16Uint,
    R16Sint,
    R16Float,
    Rg8Unorm,
    Rg8Snorm,
    Rg8Uint,
    Rg8Sint,
    R32Uint,
    R32Sint,
    R32Float,
    Rg16Uint,
    Rg16Sint,
    Rg16Float,
    Rgba8Unorm,
    Rgba8UnormSrgb,
    Rgba8Snorm,
    Rgba8Uint,
    Rgba8Sint,
    Bgra8Unorm,
    Bgra8UnormSrgb,
    Rgb10a2Unorm,
    Rg11b10Float,
    Rg32Uint,
    Rg32Sint,
    Rg32Float,
    Rgba16Uint,
    Rgba16Sint,
    Rgba16Float,
    Rgba32Uint,
    Rgba32Sint,
    Rgba32Float,
    Depth32Float,
    Depth24Plus,
    Depth24PlusStencil8,
    Bc1RgbaUnorm,
    Bc1RgbaUnormSrgb,
    Bc2RgbaUnorm,
    Bc2RgbaUnormSrgb,
    Bc3RgbaUnorm,
    Bc3RgbaUnormSrgb,
    Bc4RUnorm,
    Bc4RSnorm,
    Bc5RgUnorm,
    Bc5RgSnorm,
    Bc6hRgbUfloat,
    Bc6hRgbSfloat,
    Bc7RgbaUnorm,
    Bc7RgbaUnormSrgb,
    Etc2RgbUnorm,
    Etc2RgbUnormSrgb,
    Etc2RgbA1Unorm,
    Etc2RgbA1UnormSrgb,
    Etc2RgbA8Unorm,
    Etc2RgbA8UnormSrgb,
    EacRUnorm,
    EacRSnorm,
    EtcRgUnorm,
    EtcRgSnorm,
    Astc4x4RgbaUnorm,
    Astc4x4RgbaUnormSrgb,
    Astc5x4RgbaUnorm,
    Astc5x4RgbaUnormSrgb,
    Astc5x5RgbaUnorm,
    Astc5x5RgbaUnormSrgb,
    Astc6x5RgbaUnorm,
    Astc6x5RgbaUnormSrgb,
    Astc6x6RgbaUnorm,
    Astc6x6RgbaUnormSrgb,
    Astc8x5RgbaUnorm,
    Astc8x5RgbaUnormSrgb,
    Astc8x6RgbaUnorm,
    Astc8x6RgbaUnormSrgb,
    Astc8x8RgbaUnorm,
    Astc8x8RgbaUnormSrgb,
    Astc10x5RgbaUnorm,
    Astc10x5RgbaUnormSrgb,
    Astc10x6RgbaUnorm,
    Astc10x6RgbaUnormSrgb,
    Astc10x8RgbaUnorm,
    Astc10x8RgbaUnormSrgb,
    Astc10x10RgbaUnorm,
    Astc10x10RgbaUnormSrgb,
    Astc12x10RgbaUnorm,
    Astc12x10RgbaUnormSrgb,
    Astc12x12RgbaUnorm,
    Astc12x12RgbaUnormSrgb,
}

/// Formats that cannot be the source of a copy.
pub open spec fn copy_src_excluded(format: TextureFormat) -> bool {
    format is Depth24Plus || format is Depth24PlusStencil8
}

/// Formats that cannot be the destination of a copy.
pub open spec fn copy_dst_excluded(format: TextureFormat) -> bool {
    format is Depth32Float || format is Depth24Plus || format is Depth24PlusStencil8
}

/// Whether a texture of this format may be the source of a copy.
pub fn is_valid_copy_src_texture_format(format: TextureFormat) -> (r: bool)
    ensures
        r == !copy_src_excluded(format),
{
    match format {
        TextureFormat::Depth24Plus | TextureFormat::Depth24PlusStencil8 => false,
        _ => true,
    }
}

/// Whether a texture of this format may be the destination of a copy.
pub fn is_valid_copy_dst_texture_format(format: TextureFormat) -> (r: bool)
    ensures
        r == !copy_dst_excluded(format),
{
    match format {
        TextureFormat::Depth32Float
        | TextureFormat::Depth24Plus
        | TextureFormat::Depth24PlusStencil8 => false,
        _ => true,
    }
}

/// Every format that cannot be a copy source cannot be a copy destination
/// either; the destination table excludes one format more.
pub proof fn copy_dst_exclusions_cover_src(format: TextureFormat)
    ensures
        copy_src_excluded(format) ==> copy_dst_excluded(format),
        copy_dst_excluded(format) && !copy_src_excluded(format) <==> format is Depth32Float,
{
}

} // verus!
