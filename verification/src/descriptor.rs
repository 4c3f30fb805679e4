//! The texture descriptor consumed by every generation strategy.

use crate::extent::Extent3d;
use crate::format::TextureFormat;
use crate::usage::TextureUsages;
use vstd::prelude::*;

verus! {

/// The dimensionality of a texture.
#[derive(Clone, Copy, Debug, PartialEq, Eq, Structural)]
pub enum TextureDimension {
    D1,
    D2,
    D3,
}

/// Describes a texture: its size, mip chain length, sample count,
/// dimensionality, pixel format and usage capabilities.
#[derive(Clone, Copy, Debug, PartialEq, Eq, Structural)]
pub struct TextureDescriptor {
    pub size: Extent3d,
    pub mip_level_count: u32,
    pub sample_count: u32,
    pub dimension: TextureDimension,
    pub format: TextureFormat,
    pub usage: TextureUsages,
}

impl TextureDescriptor {
    /// A texture always carries at least its base level.
    pub open spec fn wf(self) -> bool {
        self.mip_level_count >= 1
    }
}

} // verus!
