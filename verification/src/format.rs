//! The format capability tables: bytes per texel, sample-type class, and
//! compiled-kernel availability for every pixel format the library knows.

use vstd::prelude::*;

verus! {

/// A pixel format of a 2D texture.
#[derive(Clone, Copy, Debug, PartialEq, Eq, Hash, Structural)]
pub enum TextureFormat {
    R8Unorm,
    R8Snorm,
    R8Uint,
    R8Sint,
    R16Uint,
    R16Sint,
    R16Float,
    Rg8Unorm,
    Rg8Snorm,
    Rg8Uint,
    Rg8Sint,
    R32Uint,
    R32Sint,
    R32Float,
    Rg16Uint,
    Rg16Sint,
    Rg16Float,
    Rgba8Unorm,
    Rgba8Snorm,
    Rgba8Uint,
    Rgba8Sint,
    Bgra8Unorm,
    Bgra8UnormSrgb,
    Rgba8UnormSrgb,
    Rgb10a2Unorm,
    Rg11b10Float,
    Rg32Uint,
    Rg32Sint,
    Rg32Float,
    Rgba16Uint,
    Rgba16Sint,
    Rgba16Float,
    Rgba32Uint,
    Rgba32Sint,
    Rgba32Float,
    Depth32Float,
    Depth24Plus,
    Depth24PlusStencil8,
}

/// How a format is interpreted when it is sampled in a shader.
#[derive(Clone, Copy, Debug, PartialEq, Eq, Hash, Structural)]
pub enum TextureSampleType {
    Uint,
    Sint,
    Float { filterable: bool },
}

/// The distinct compiled box-filter compute kernels.  Each is an opaque
/// program selected here by pixel format; several formats may share one.
#[derive(Clone, Copy, Debug, PartialEq, Eq, Hash, Structural)]
pub enum ComputeKernel {
    BoxR8,
    BoxR8Snorm,
    BoxR16f,
    BoxRg8,
    BoxRg8Snorm,
    BoxR32f,
    BoxRg16f,
    BoxRgba8,
    BoxSrgb,
    BoxRgba8Snorm,
    BoxRgb10A2,
    BoxR11fG11fB10f,
    BoxRg32f,
    BoxRgba16f,
    BoxRgba32f,
}

/// The size in bytes of one texel, for formats with a known linear byte
/// layout; depth formats have none.
pub open spec fn spec_bytes_per_channel(format: TextureFormat) -> Option<usize> {
    match format {
        TextureFormat::R8Unorm => Some(1usize),
        TextureFormat::R8Snorm => Some(1usize),
        TextureFormat::R8Uint => Some(1usize),
        TextureFormat::R8Sint => Some(1usize),
        TextureFormat::R16Uint => Some(2usize),
        TextureFormat::R16Sint => Some(2usize),
        TextureFormat::R16Float => Some(2usize),
        TextureFormat::Rg8Unorm => Some(2usize),
        TextureFormat::Rg8Snorm => Some(2usize),
        TextureFormat::Rg8Uint => Some(2usize),
        TextureFormat::Rg8Sint => Some(2usize),
        TextureFormat::R32Uint => Some(4usize),
        TextureFormat::R32Sint => Some(4usize),
        TextureFormat::R32Float => Some(4usize),
        TextureFormat::Rg16Uint => Some(4usize),
        TextureFormat::Rg16Sint => Some(4usize),
        TextureFormat::Rg16Float => Some(4usize),
        TextureFormat::Rgba8Unorm => Some(4usize),
        TextureFormat::Rgba8Snorm => Some(4usize),
        TextureFormat::Rgba8Uint => Some(4usize),
        TextureFormat::Rgba8Sint => Some(4usize),
        TextureFormat::Bgra8Unorm => Some(4usize),
        TextureFormat::Bgra8UnormSrgb => Some(4usize),
        TextureFormat::Rgba8UnormSrgb => Some(4usize),
        TextureFormat::Rgb10a2Unorm => Some(4usize),
        TextureFormat::Rg11b10Float => Some(4usize),
        TextureFormat::Rg32Uint => Some(8usize),
        TextureFormat::Rg32Sint => Some(8usize),
        TextureFormat::Rg32Float => Some(8usize),
        TextureFormat::Rgba16Uint => Some(8usize),
        TextureFormat::Rgba16Sint => Some(8usize),
        TextureFormat::Rgba16Float => Some(8usize),
        TextureFormat::Rgba32Uint => Some(16usize),
        TextureFormat::Rgba32Sint => Some(16usize),
        TextureFormat::Rgba32Float => Some(16usize),
        _ => None,
    }
}

/// The size in bytes of one texel of `format`.  Callers must stay away from
/// formats without a known byte layout; `try_bytes_per_channel` tells the
/// two classes apart.
pub fn format_bytes_per_channel(format: &TextureFormat) -> (r: usize)
    requires
        spec_bytes_per_channel(*format) is Some,
    ensures
        Some(r) == spec_bytes_per_channel(*format),
{
    match format {
        TextureFormat::R8Unorm => 1,
        TextureFormat::R8Snorm => 1,
        TextureFormat::R8Uint => 1,
        TextureFormat::R8Sint => 1,
        TextureFormat::R16Uint => 2,
        TextureFormat::R16Sint => 2,
        TextureFormat::R16Float => 2,
        TextureFormat::Rg8Unorm => 2,
        TextureFormat::Rg8Snorm => 2,
        TextureFormat::Rg8Uint => 2,
        TextureFormat::Rg8Sint => 2,
        TextureFormat::R32Uint => 4,
        TextureFormat::R32Sint => 4,
        TextureFormat::R32Float => 4,
        TextureFormat::Rg16Uint => 4,
        TextureFormat::Rg16Sint => 4,
        TextureFormat::Rg16Float => 4,
        TextureFormat::Rgba8Unorm => 4,
        TextureFormat::Rgba8Snorm => 4,
        TextureFormat::Rgba8Uint => 4,
        TextureFormat::Rgba8Sint => 4,
        TextureFormat::Bgra8Unorm => 4,
        TextureFormat::Bgra8UnormSrgb => 4,
        TextureFormat::Rgba8UnormSrgb => 4,
        TextureFormat::Rgb10a2Unorm => 4,
        TextureFormat::Rg11b10Float => 4,
        TextureFormat::Rg32Uint => 8,
        TextureFormat::Rg32Sint => 8,
        TextureFormat::Rg32Float => 8,
        TextureFormat::Rgba16Uint => 8,
        TextureFormat::Rgba16Sint => 8,
        TextureFormat::Rgba16Float => 8,
        TextureFormat::Rgba32Uint => 16,
        TextureFormat::Rgba32Sint => 16,
        TextureFormat::Rgba32Float => 16,
        _ => unreached(),
    }
}

/// The size in bytes of one texel, or `None` for formats without a known
/// linear byte layout.
pub fn try_bytes_per_channel(format: &TextureFormat) -> (r: Option<usize>)
    ensures
        r == spec_bytes_per_channel(*format),
{
    match format {
        TextureFormat::Depth32Float => None,
        TextureFormat::Depth24Plus => None,
        TextureFormat::Depth24PlusStencil8 => None,
        _ => Some(format_bytes_per_channel(format)),
    }
}

/// The sample-type class of a format: unsigned integer, signed integer, or
/// filterable floating point.
pub open spec fn spec_sample_type(format: TextureFormat) -> TextureSampleType {
    match format {
        TextureFormat::R8Uint => TextureSampleType::Uint,
        TextureFormat::R16Uint => TextureSampleType::Uint,
        TextureFormat::Rg8Uint => TextureSampleType::Uint,
        TextureFormat::R32Uint => TextureSampleType::Uint,
        TextureFormat::Rg16Uint => TextureSampleType::Uint,
        TextureFormat::Rgba8Uint => TextureSampleType::Uint,
        TextureFormat::Rg32Uint => TextureSampleType::Uint,
        TextureFormat::Rgba16Uint => TextureSampleType::Uint,
        TextureFormat::Rgba32Uint => TextureSampleType::Uint,
        TextureFormat::R8Sint => TextureSampleType::Sint,
        TextureFormat::R16Sint => TextureSampleType::Sint,
        TextureFormat::Rg8Sint => TextureSampleType::Sint,
        TextureFormat::R32Sint => TextureSampleType::Sint,
        TextureFormat::Rg16Sint => TextureSampleType::Sint,
        TextureFormat::Rgba8Sint => TextureSampleType::Sint,
        TextureFormat::Rg32Sint => TextureSampleType::Sint,
        TextureFormat::Rgba16Sint => TextureSampleType::Sint,
        TextureFormat::Rgba32Sint => TextureSampleType::Sint,
        _ => TextureSampleType::Float { filterable: true },
    }
}

/// Classifies `format` by how it is read when sampled.
pub fn to_sample_type(format: &TextureFormat) -> (r: TextureSampleType)
    ensures
        r == spec_sample_type(*format),
{
    match format {
        TextureFormat::R8Uint => TextureSampleType::Uint,
        TextureFormat::R16Uint => TextureSampleType::Uint,
        TextureFormat::Rg8Uint => TextureSampleType::Uint,
        TextureFormat::R32Uint => TextureSampleType::Uint,
        TextureFormat::Rg16Uint => TextureSampleType::Uint,
        TextureFormat::Rgba8Uint => TextureSampleType::Uint,
        TextureFormat::Rg32Uint => TextureSampleType::Uint,
        TextureFormat::Rgba16Uint => TextureSampleType::Uint,
        TextureFormat::Rgba32Uint => TextureSampleType::Uint,
        TextureFormat::R8Sint => TextureSampleType::Sint,
        TextureFormat::R16Sint => TextureSampleType::Sint,
        TextureFormat::Rg8Sint => TextureSampleType::Sint,
        TextureFormat::R32Sint => TextureSampleType::Sint,
        TextureFormat::Rg16Sint => TextureSampleType::Sint,
        TextureFormat::Rgba8Sint => TextureSampleType::Sint,
        TextureFormat::Rg32Sint => TextureSampleType::Sint,
        TextureFormat::Rgba16Sint => TextureSampleType::Sint,
        TextureFormat::Rgba32Sint => TextureSampleType::Sint,
        _ => TextureSampleType::Float { filterable: true },
    }
}

/// The compiled box-filter compute kernel for `format`, if one exists.
pub open spec fn spec_compute_kernel(format: TextureFormat) -> Option<ComputeKernel> {
    match format {
        TextureFormat::R8Unorm => Some(ComputeKernel::BoxR8),
        TextureFormat::R8Snorm => Some(ComputeKernel::BoxR8Snorm),
        TextureFormat::R16Float => Some(ComputeKernel::BoxR16f),
        TextureFormat::Rg8Unorm => Some(ComputeKernel::BoxRg8),
        TextureFormat::Rg8Snorm => Some(ComputeKernel::BoxRg8Snorm),
        TextureFormat::R32Float => Some(ComputeKernel::BoxR32f),
        TextureFormat::Rg16Float => Some(ComputeKernel::BoxRg16f),
        TextureFormat::Rgba8Unorm => Some(ComputeKernel::BoxRgba8),
        TextureFormat::Rgba8UnormSrgb => Some(ComputeKernel::BoxSrgb),
        TextureFormat::Bgra8UnormSrgb => Some(ComputeKernel::BoxSrgb),
        TextureFormat::Rgba8Snorm => Some(ComputeKernel::BoxRgba8Snorm),
        TextureFormat::Bgra8Unorm => Some(ComputeKernel::BoxRgba8),
        TextureFormat::Rgb10a2Unorm => Some(ComputeKernel::BoxRgb10A2),
        TextureFormat::Rg11b10Float => Some(ComputeKernel::BoxR11fG11fB10f),
        TextureFormat::Rg32Float => Some(ComputeKernel::BoxRg32f),
        TextureFormat::Rgba16Float => Some(ComputeKernel::BoxRgba16f),
        TextureFormat::Rgba32Float => Some(ComputeKernel::BoxRgba32f),
        _ => None,
    }
}

/// Selects the compiled box-filter compute kernel for `format`, or `None`
/// when no kernel is known for it.
pub fn compute_kernel_for_format(format: &TextureFormat) -> (r: Option<ComputeKernel>)
    ensures
        r == spec_compute_kernel(*format),
{
    match format {
        TextureFormat::R8Unorm => Some(ComputeKernel::BoxR8),
        TextureFormat::R8Snorm => Some(ComputeKernel::BoxR8Snorm),
        TextureFormat::R16Float => Some(ComputeKernel::BoxR16f),
        TextureFormat::Rg8Unorm => Some(ComputeKernel::BoxRg8),
        TextureFormat::Rg8Snorm => Some(ComputeKernel::BoxRg8Snorm),
        TextureFormat::R32Float => Some(ComputeKernel::BoxR32f),
        TextureFormat::Rg16Float => Some(ComputeKernel::BoxRg16f),
        TextureFormat::Rgba8Unorm => Some(ComputeKernel::BoxRgba8),
        TextureFormat::Rgba8UnormSrgb => Some(ComputeKernel::BoxSrgb),
        TextureFormat::Bgra8UnormSrgb => Some(ComputeKernel::BoxSrgb),
        TextureFormat::Rgba8Snorm => Some(ComputeKernel::BoxRgba8Snorm),
        TextureFormat::Bgra8Unorm => Some(ComputeKernel::BoxRgba8),
        TextureFormat::Rgb10a2Unorm => Some(ComputeKernel::BoxRgb10A2),
        TextureFormat::Rg11b10Float => Some(ComputeKernel::BoxR11fG11fB10f),
        TextureFormat::Rg32Float => Some(ComputeKernel::BoxRg32f),
        TextureFormat::Rgba16Float => Some(ComputeKernel::BoxRgba16f),
        TextureFormat::Rgba32Float => Some(ComputeKernel::BoxRgba32f),
        _ => None,
    }
}

/// The formats for which at least one strategy has a known kernel.
pub open spec fn spec_supported_formats() -> Seq<TextureFormat> {
    seq![
        TextureFormat::R8Unorm,
        TextureFormat::R8Snorm,
        TextureFormat::R16Float,
        TextureFormat::Rg8Unorm,
        TextureFormat::Rg8Snorm,
        TextureFormat::R32Float,
        TextureFormat::Rg16Float,
        TextureFormat::Rgba8Unorm,
        TextureFormat::Rgba8Snorm,
        TextureFormat::Bgra8Unorm,
        TextureFormat::Bgra8UnormSrgb,
        TextureFormat::Rgba8UnormSrgb,
        TextureFormat::Rgb10a2Unorm,
        TextureFormat::Rg11b10Float,
        TextureFormat::Rg32Float,
        TextureFormat::Rgba16Float,
        TextureFormat::Rgba32Float,
    ]
}

/// Returns the formats for which at least one strategy has a known kernel.
pub fn supported_formats() -> (r: Vec<TextureFormat>)
    ensures
        r@ == spec_supported_formats(),
{
    let mut v: Vec<TextureFormat> = Vec::new();
    v.push(TextureFormat::R8Unorm);
    v.push(TextureFormat::R8Snorm);
    v.push(TextureFormat::R16Float);
    v.push(TextureFormat::Rg8Unorm);
    v.push(TextureFormat::Rg8Snorm);
    v.push(TextureFormat::R32Float);
    v.push(TextureFormat::Rg16Float);
    v.push(TextureFormat::Rgba8Unorm);
    v.push(TextureFormat::Rgba8Snorm);
    v.push(TextureFormat::Bgra8Unorm);
    v.push(TextureFormat::Bgra8UnormSrgb);
    v.push(TextureFormat::Rgba8UnormSrgb);
    v.push(TextureFormat::Rgb10a2Unorm);
    v.push(TextureFormat::Rg11b10Float);
    v.push(TextureFormat::Rg32Float);
    v.push(TextureFormat::Rgba16Float);
    v.push(TextureFormat::Rgba32Float);
    proof {
        assert(v@ =~= spec_supported_formats());
    }
    v
}

} // verus!
