//! The errors a generation strategy may report.  All of them are detected
//! while validating a descriptor, before any command is planned.

use crate::descriptor::TextureDimension;
use crate::format::TextureFormat;
use crate::usage::TextureUsages;
use vstd::prelude::*;

verus! {

/// An error that occurred during mipmap generation.  Each variant carries
/// the rejected value.
#[derive(Clone, Copy, Debug, PartialEq, Eq, Structural)]
pub enum Error {
    /// The texture's usage bitset lacks the capabilities the strategy needs.
    UnsupportedUsage(TextureUsages),
    /// The texture is not 2D.
    UnsupportedDimension(TextureDimension),
    /// The format's sample-type class fits no strategy.
    UnsupportedFormat(TextureFormat),
    /// The texture's width or height is not a power of two.
    NpotTexture,
    /// No kernel was built for the texture's format when the generator was
    /// constructed.
    UnknownFormat(TextureFormat),
}

} // verus!
