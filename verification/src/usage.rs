//! The usage-capability bitset of a texture.

use vstd::prelude::*;

verus! {

/// Texture may be the source of a copy command.
pub const TEXTURE_USAGE_COPY_SRC: u32 = 0x1;

/// Texture may be the destination of a copy command.
pub const TEXTURE_USAGE_COPY_DST: u32 = 0x2;

/// Texture may be read through a sampler in a shader.
pub const TEXTURE_USAGE_SAMPLED: u32 = 0x4;

/// Texture may be read and written as a storage image by a compute kernel.
pub const TEXTURE_USAGE_STORAGE: u32 = 0x8;

/// Texture may be the color target of a render pass.
pub const TEXTURE_USAGE_RENDER_ATTACHMENT: u32 = 0x10;

/// A set of texture usage capabilities, one bit per capability.
#[derive(Clone, Copy, Debug, PartialEq, Eq, Structural)]
pub struct TextureUsages {
    pub bits: u32,
}

impl TextureUsages {
    /// True when every capability of `other` is also in `self`.
    pub open spec fn spec_contains(self, other: TextureUsages) -> bool {
        self.bits & other.bits == other.bits
    }

    /// The empty capability set.
    pub fn empty() -> (r: Self)
        ensures
            r.bits == 0,
    {
        TextureUsages { bits: 0 }
    }

    /// The capability set with exactly the given bits.
    pub fn from_bits(bits: u32) -> (r: Self)
        ensures
            r.bits == bits,
    {
        TextureUsages { bits }
    }

    /// Tests whether every capability of `other` is also in `self`.
    pub fn contains(&self, other: TextureUsages) -> (r: bool)
        ensures
            r == self.spec_contains(other),
    {
        self.bits & other.bits == other.bits
    }

    /// The union of two capability sets.
    pub fn union(&self, other: TextureUsages) -> (r: Self)
        ensures
            r.bits == (self.bits | other.bits),
    {
        TextureUsages { bits: self.bits | other.bits }
    }
}

} // verus!
