//! Translation of portable usage flags into hardware capability flags.
use vstd::prelude::*;
use crate::flags::{
    BufferUsage, BufferUse, FormatAspect, TextureUsage, TextureUse, has_flags, is_color_aspect, with_flags,
};

verus! {

/// `hw` is the translation of the buffer usage `usage`: each hardware flag is
/// set exactly when its portable flag is, storage sets both the load and the
/// store flag, and no other flag is set.
pub open spec fn buffer_use_of(usage: BufferUsage, hw: BufferUse) -> bool {
    buffer_bits_of(usage.bits, hw.bits)
}

/// [`buffer_use_of`] over the raw bit vectors.
pub open spec fn buffer_bits_of(usage: u32, hw: u32) -> bool {
    &&& has_flags(hw, BufferUse::MAP_READ) == has_flags(usage, BufferUsage::MAP_READ)
    &&& has_flags(hw, BufferUse::MAP_WRITE) == has_flags(usage, BufferUsage::MAP_WRITE)
    &&& has_flags(hw, BufferUse::COPY_SRC) == has_flags(usage, BufferUsage::COPY_SRC)
    &&& has_flags(hw, BufferUse::COPY_DST) == has_flags(usage, BufferUsage::COPY_DST)
    &&& has_flags(hw, BufferUse::INDEX) == has_flags(usage, BufferUsage::INDEX)
    &&& has_flags(hw, BufferUse::VERTEX) == has_flags(usage, BufferUsage::VERTEX)
    &&& has_flags(hw, BufferUse::UNIFORM) == has_flags(usage, BufferUsage::UNIFORM)
    &&& has_flags(hw, BufferUse::STORAGE_LOAD) == has_flags(usage, BufferUsage::STORAGE)
    &&& has_flags(hw, BufferUse::STORAGE_STORE) == has_flags(usage, BufferUsage::STORAGE)
    &&& has_flags(hw, BufferUse::INDIRECT) == has_flags(usage, BufferUsage::INDIRECT)
    &&& hw & !BufferUse::ALL == 0
}

/// Translates portable buffer usage flags into hardware buffer capability
/// flags. Unknown portable bits are ignored.
pub fn map_buffer_usage(usage: BufferUsage) -> (r: BufferUse)
    ensures
        buffer_use_of(usage, r),
{
    let mut u = BufferUse::empty();
    let ghost u0 = u.bits;
    u.set(BufferUse::MAP_READ, usage.contains(BufferUsage::MAP_READ));
    let ghost u1 = u.bits;
    u.set(BufferUse::MAP_WRITE, usage.contains(BufferUsage::MAP_WRITE));
    let ghost u2 = u.bits;
    u.set(BufferUse::COPY_SRC, usage.contains(BufferUsage::COPY_SRC));
    let ghost u3 = u.bits;
    u.set(BufferUse::COPY_DST, usage.contains(BufferUsage::COPY_DST));
    let ghost u4 = u.bits;
    u.set(BufferUse::INDEX, usage.contains(BufferUsage::INDEX));
    let ghost u5 = u.bits;
    u.set(BufferUse::VERTEX, usage.contains(BufferUsage::VERTEX));
    let ghost u6 = u.bits;
    u.set(BufferUse::UNIFORM, usage.contains(BufferUsage::UNIFORM));
    let ghost u7 = u.bits;
    u.set(
        BufferUse::STORAGE_LOAD | BufferUse::STORAGE_STORE,
        usage.contains(BufferUsage::STORAGE),
    );
    let ghost u8 = u.bits;
    u.set(BufferUse::INDIRECT, usage.contains(BufferUsage::INDIRECT));
    let ghost u9 = u.bits;
    let ghost b = usage.bits;
    assert(buffer_bits_of(b, u9)) by (bit_vector)
        requires
            u0 == 0,
            u1 == with_flags(u0, BufferUse::MAP_READ, has_flags(b, BufferUsage::MAP_READ)),
            u2 == with_flags(u1, BufferUse::MAP_WRITE, has_flags(b, BufferUsage::MAP_WRITE)),
            u3 == with_flags(u2, BufferUse::COPY_SRC, has_flags(b, BufferUsage::COPY_SRC)),
            u4 == with_flags(u3, BufferUse::COPY_DST, has_flags(b, BufferUsage::COPY_DST)),
            u5 == with_flags(u4, BufferUse::INDEX, has_flags(b, BufferUsage::INDEX)),
            u6 == with_flags(u5, BufferUse::VERTEX, has_flags(b, BufferUsage::VERTEX)),
            u7 == with_flags(u6, BufferUse::UNIFORM, has_flags(b, BufferUsage::UNIFORM)),
            u8 == with_flags(
                u7,
                BufferUse::STORAGE_LOAD | BufferUse::STORAGE_STORE,
                has_flags(b, BufferUsage::STORAGE),
            ),
            u9 == with_flags(u8, BufferUse::INDIRECT, has_flags(b, BufferUsage::INDIRECT)),
    ;
    u
}

/// `hw` is the translation of the texture usage `usage` for a format with
/// aspects `aspect`: copy and sampling flags carry over one to one, storage
/// sets both the load and the store flag, and a render attachment becomes a
/// color target on a color format (color aspect, no depth or stencil aspect)
/// and a depth-stencil attachment, read and write, on any other format,
/// including one that combines color with depth or stencil. No other flag
/// is set.
pub open spec fn texture_use_of(usage: TextureUsage, aspect: FormatAspect, hw: TextureUse) -> bool {
    texture_bits_of(usage.bits, is_color_aspect(aspect.bits), hw.bits)
}

/// [`texture_use_of`] over the raw bit vectors, with `is_color` telling
/// whether the format counts as a color format.
pub open spec fn texture_bits_of(usage: u32, is_color: bool, hw: u32) -> bool {
    let attachment = has_flags(usage, TextureUsage::RENDER_ATTACHMENT);
    &&& has_flags(hw, TextureUse::COPY_SRC) == has_flags(usage, TextureUsage::COPY_SRC)
    &&& has_flags(hw, TextureUse::COPY_DST) == has_flags(usage, TextureUsage::COPY_DST)
    &&& has_flags(hw, TextureUse::SAMPLED) == has_flags(usage, TextureUsage::SAMPLED)
    &&& has_flags(hw, TextureUse::STORAGE_LOAD) == has_flags(usage, TextureUsage::STORAGE)
    &&& has_flags(hw, TextureUse::STORAGE_STORE) == has_flags(usage, TextureUsage::STORAGE)
    &&& has_flags(hw, TextureUse::COLOR_TARGET) == (attachment && is_color)
    &&& has_flags(hw, TextureUse::DEPTH_STENCIL_READ) == (attachment && !is_color)
    &&& has_flags(hw, TextureUse::DEPTH_STENCIL_WRITE) == (attachment && !is_color)
    &&& hw & !TextureUse::ALL == 0
}

/// Translates portable texture usage flags into hardware texture capability
/// flags. Which flags a render attachment becomes depends on the format:
/// a color target for a format whose only aspect is color, depth-stencil
/// read and write for any other, a format that combines color with depth or
/// stencil included.
pub fn map_texture_usage(usage: TextureUsage, aspect: FormatAspect) -> (r: TextureUse)
    ensures
        texture_use_of(usage, aspect, r),
{
    let mut u = TextureUse::empty();
    let ghost u0 = u.bits;
    u.set(TextureUse::COPY_SRC, usage.contains(TextureUsage::COPY_SRC));
    let ghost u1 = u.bits;
    u.set(TextureUse::COPY_DST, usage.contains(TextureUsage::COPY_DST));
    let ghost u2 = u.bits;
    u.set(TextureUse::SAMPLED, usage.contains(TextureUsage::SAMPLED));
    let ghost u3 = u.bits;
    u.set(
        TextureUse::STORAGE_LOAD | TextureUse::STORAGE_STORE,
        usage.contains(TextureUsage::STORAGE),
    );
    let ghost u4 = u.bits;
    let is_color = aspect.is_color();
    u.set(
        TextureUse::COLOR_TARGET,
        usage.contains(TextureUsage::RENDER_ATTACHMENT) && is_color,
    );
    let ghost u5 = u.bits;
    u.set(
        TextureUse::DEPTH_STENCIL_READ | TextureUse::DEPTH_STENCIL_WRITE,
        usage.contains(TextureUsage::RENDER_ATTACHMENT) && !is_color,
    );
    let ghost u6 = u.bits;
    let ghost b = usage.bits;
    assert(texture_bits_of(b, is_color, u6)) by (bit_vector)
        requires
            u0 == 0,
            u1 == with_flags(u0, TextureUse::COPY_SRC, has_flags(b, TextureUsage::COPY_SRC)),
            u2 == with_flags(u1, TextureUse::COPY_DST, has_flags(b, TextureUsage::COPY_DST)),
            u3 == with_flags(u2, TextureUse::SAMPLED, has_flags(b, TextureUsage::SAMPLED)),
            u4 == with_flags(
                u3,
                TextureUse::STORAGE_LOAD | TextureUse::STORAGE_STORE,
                has_flags(b, TextureUsage::STORAGE),
            ),
            u5 == with_flags(
                u4,
                TextureUse::COLOR_TARGET,
                has_flags(b, TextureUsage::RENDER_ATTACHMENT) && is_color,
            ),
            u6 == with_flags(
                u5,
                TextureUse::DEPTH_STENCIL_READ | TextureUse::DEPTH_STENCIL_WRITE,
                has_flags(b, TextureUsage::RENDER_ATTACHMENT) && !is_color,
            ),
    ;
    u
}

/// A render attachment alone, on a color format (color aspect, no depth or
/// stencil aspect), becomes the color-target flag and nothing else.
pub proof fn color_attachment_is_color_target_only(aspect: FormatAspect, hw: TextureUse)
    requires
        is_color_aspect(aspect.bits),
        texture_use_of(TextureUsage { bits: TextureUsage::RENDER_ATTACHMENT }, aspect, hw),
    ensures
        hw.bits == TextureUse::COLOR_TARGET,
{
    let h = hw.bits;
    assert(h == TextureUse::COLOR_TARGET) by (bit_vector)
        requires
            texture_bits_of(TextureUsage::RENDER_ATTACHMENT, true, h),
    ;
}

/// A render attachment alone, on any format that is not a color format (no
/// color aspect, or color combined with depth or stencil), becomes both
/// depth-stencil flags and never the color-target flag.
pub proof fn depth_attachment_is_depth_stencil_only(aspect: FormatAspect, hw: TextureUse)
    requires
        !is_color_aspect(aspect.bits),
        texture_use_of(TextureUsage { bits: TextureUsage::RENDER_ATTACHMENT }, aspect, hw),
    ensures
        hw.bits == TextureUse::DEPTH_STENCIL_READ | TextureUse::DEPTH_STENCIL_WRITE,
        !has_flags(hw.bits, TextureUse::COLOR_TARGET),
{
    let h = hw.bits;
    assert(h == TextureUse::DEPTH_STENCIL_READ | TextureUse::DEPTH_STENCIL_WRITE
        && !has_flags(h, TextureUse::COLOR_TARGET)) by (bit_vector)
        requires
            texture_bits_of(TextureUsage::RENDER_ATTACHMENT, false, h),
    ;
}

/// For any usage and format, the translation never holds a color-target flag
/// together with a depth-stencil flag.
pub proof fn attachment_kinds_exclusive(usage: TextureUsage, aspect: FormatAspect, hw: TextureUse)
    requires
        texture_use_of(usage, aspect, hw),
    ensures
        !(has_flags(hw.bits, TextureUse::COLOR_TARGET) && has_flags(
            hw.bits,
            TextureUse::DEPTH_STENCIL_READ,
        )),
        !(has_flags(hw.bits, TextureUse::COLOR_TARGET) && has_flags(
            hw.bits,
            TextureUse::DEPTH_STENCIL_WRITE,
        )),
{
}

} // verus!
