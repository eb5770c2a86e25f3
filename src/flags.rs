//! The two flag vocabularies: portable usage flags declared by a caller, and
//! the finer-grained hardware capability flags they translate into.
use vstd::prelude::*;

verus! {

/// Whether every flag of `flags` is set in `bits`.
pub open spec fn has_flags(bits: u32, flags: u32) -> bool {
    bits & flags == flags
}

/// `bits` with the flags of `flags` set when `on` holds, cleared otherwise.
pub open spec fn with_flags(bits: u32, flags: u32, on: bool) -> u32 {
    if on {
        bits | flags
    } else {
        bits & !flags
    }
}

/// Portable buffer usage flags.
#[derive(Clone, Copy, Debug, PartialEq, Eq, Structural)]
pub struct BufferUsage {
    pub bits: u32,
}

impl BufferUsage {
    pub const MAP_READ: u32 = 1;
    pub const MAP_WRITE: u32 = 2;
    pub const COPY_SRC: u32 = 4;
    pub const COPY_DST: u32 = 8;
    pub const INDEX: u32 = 16;
    pub const VERTEX: u32 = 32;
    pub const UNIFORM: u32 = 64;
    pub const STORAGE: u32 = 128;
    pub const INDIRECT: u32 = 256;

    pub fn from_bits(bits: u32) -> (r: Self)
        ensures
            r.bits == bits,
    {
        BufferUsage { bits }
    }

    /// Whether every flag of `flags` is set.
    pub fn contains(&self, flags: u32) -> (r: bool)
        ensures
            r == has_flags(self.bits, flags),
    {
        self.bits & flags == flags
    }
}

/// Hardware buffer capability flags.
#[derive(Clone, Copy, Debug, PartialEq, Eq, Structural)]
pub struct BufferUse {
    pub bits: u32,
}

impl BufferUse {
    pub const MAP_READ: u32 = 1;
    pub const MAP_WRITE: u32 = 2;
    pub const COPY_SRC: u32 = 4;
    pub const COPY_DST: u32 = 8;
    pub const INDEX: u32 = 16;
    pub const VERTEX: u32 = 32;
    pub const UNIFORM: u32 = 64;
    pub const STORAGE_LOAD: u32 = 128;
    pub const STORAGE_STORE: u32 = 256;
    pub const INDIRECT: u32 = 512;
    /// Every flag of this vocabulary.
    pub const ALL: u32 = 1023;

    pub fn empty() -> (r: Self)
        ensures
            r.bits == 0,
    {
        BufferUse { bits: 0 }
    }

    /// Whether every flag of `flags` is set.
    pub fn contains(&self, flags: u32) -> (r: bool)
        ensures
            r == has_flags(self.bits, flags),
    {
        self.bits & flags == flags
    }

    /// Sets the flags of `flags` when `on` holds, clears them otherwise.
    pub fn set(&mut self, flags: u32, on: bool)
        ensures
            final(self).bits == with_flags(old(self).bits, flags, on),
    {
        if on {
            self.bits = self.bits | flags;
        } else {
            self.bits = self.bits & !flags;
        }
    }
}

/// Portable texture usage flags.
#[derive(Clone, Copy, Debug, PartialEq, Eq, Structural)]
pub struct TextureUsage {
    pub bits: u32,
}

impl TextureUsage {
    pub const COPY_SRC: u32 = 1;
    pub const COPY_DST: u32 = 2;
    pub const SAMPLED: u32 = 4;
    pub const STORAGE: u32 = 8;
    pub const RENDER_ATTACHMENT: u32 = 16;

    pub fn from_bits(bits: u32) -> (r: Self)
        ensures
            r.bits == bits,
    {
        TextureUsage { bits }
    }

    /// Whether every flag of `flags` is set.
    pub fn contains(&self, flags: u32) -> (r: bool)
        ensures
            r == has_flags(self.bits, flags),
    {
        self.bits & flags == flags
    }
}

/// Hardware texture capability flags.
#[derive(Clone, Copy, Debug, PartialEq, Eq, Structural)]
pub struct TextureUse {
    pub bits: u32,
}

impl TextureUse {
    pub const COPY_SRC: u32 = 1;
    pub const COPY_DST: u32 = 2;
    pub const SAMPLED: u32 = 4;
    pub const COLOR_TARGET: u32 = 8;
    pub const DEPTH_STENCIL_READ: u32 = 16;
    pub const DEPTH_STENCIL_WRITE: u32 = 32;
    pub const STORAGE_LOAD: u32 = 64;
    pub const STORAGE_STORE: u32 = 128;
    /// Every flag of this vocabulary.
    pub const ALL: u32 = 255;

    pub fn empty() -> (r: Self)
        ensures
            r.bits == 0,
    {
        TextureUse { bits: 0 }
    }

    /// Whether every flag of `flags` is set.
    pub fn contains(&self, flags: u32) -> (r: bool)
        ensures
            r == has_flags(self.bits, flags),
    {
        self.bits & flags == flags
    }

    /// Sets the flags of `flags` when `on` holds, clears them otherwise.
    pub fn set(&mut self, flags: u32, on: bool)
        ensures
            final(self).bits == with_flags(old(self).bits, flags, on),
    {
        if on {
            self.bits = self.bits | flags;
        } else {
            self.bits = self.bits & !flags;
        }
    }
}

/// Whether a format with aspects `bits` counts as a color format: it has a
/// color aspect and neither a depth nor a stencil aspect.
pub open spec fn is_color_aspect(bits: u32) -> bool {
    has_flags(bits, FormatAspect::COLOR) && bits & (FormatAspect::DEPTH | FormatAspect::STENCIL)
        == 0
}

/// Which aspects a pixel format carries: color, depth, stencil, or a
/// combination.
#[derive(Clone, Copy, Debug, PartialEq, Eq, Structural)]
pub struct FormatAspect {
    pub bits: u32,
}

impl FormatAspect {
    pub const COLOR: u32 = 1;
    pub const DEPTH: u32 = 2;
    pub const STENCIL: u32 = 4;

    pub fn from_bits(bits: u32) -> (r: Self)
        ensures
            r.bits == bits,
    {
        FormatAspect { bits }
    }

    /// Whether every flag of `flags` is set.
    pub fn contains(&self, flags: u32) -> (r: bool)
        ensures
            r == has_flags(self.bits, flags),
    {
        self.bits & flags == flags
    }

    /// Whether these aspects make a color format: color without depth or
    /// stencil. A format that combines color with depth or stencil does not
    /// count.
    pub fn is_color(&self) -> (r: bool)
        ensures
            r == is_color_aspect(self.bits),
    {
        self.contains(FormatAspect::COLOR) && self.bits & (FormatAspect::DEPTH
            | FormatAspect::STENCIL) == 0
    }
}

} // verus!
