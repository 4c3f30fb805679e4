use wgpu_mipmap::{
    ComputeMipmapGenerator, CopyMipmapGenerator, Error, Extent3d, MipmapGenerator,
    RenderMipmapGenerator, TextureDescriptor, TextureDimension, TextureFormat, TextureUsages,
};

fn descriptor(
    size: u32,
    mip_level_count: u32,
    format: TextureFormat,
    usage: TextureUsages,
) -> TextureDescriptor {
    TextureDescriptor {
        size: Extent3d { width: size, height: size, depth: 1 },
        mip_level_count,
        sample_count: 1,
        dimension: TextureDimension::D2,
        format,
        usage,
    }
}

#[test]
fn compute_sanity_check() {
    let size = 512;
    let mip_level_count = 10;
    let format = TextureFormat::R8Unorm;
    let texture_descriptor = descriptor(
        size,
        mip_level_count,
        format,
        ComputeMipmapGenerator::required_usage(),
    );
    let generator = ComputeMipmapGenerator::new_with_format_hints(&[texture_descriptor.format]);
    let res = generator.generate(&texture_descriptor);
    assert!(res.is_ok());
}

#[test]
fn unsupported_npot() {
    let size = 511;
    let mip_level_count = 9;
    let format = TextureFormat::R8Unorm;
    let texture_descriptor = descriptor(
        size,
        mip_level_count,
        format,
        ComputeMipmapGenerator::required_usage(),
    );
    let generator = ComputeMipmapGenerator::new_with_format_hints(&[texture_descriptor.format]);
    let res = generator.generate(&texture_descriptor);
    assert!(res.is_err());
    assert!(res.err() == Some(Error::NpotTexture));
}

#[test]
fn compute_unsupported_usage() {
    let size = 512;
    let mip_level_count = 10;
    let format = TextureFormat::R8Unorm;
    let texture_descriptor = descriptor(size, mip_level_count, format, TextureUsages::empty());
    let generator = ComputeMipmapGenerator::new_with_format_hints(&[texture_descriptor.format]);
    let res = generator.generate(&texture_descriptor);
    assert!(res.is_err());
    assert!(res.err() == Some(Error::UnsupportedUsage(TextureUsages::empty())));
}

#[test]
fn compute_unknown_format() {
    let size = 512;
    let mip_level_count = 10;
    let format = TextureFormat::Rg16Sint;
    let texture_descriptor = descriptor(
        size,
        mip_level_count,
        format,
        ComputeMipmapGenerator::required_usage(),
    );
    let generator = ComputeMipmapGenerator::new_with_format_hints(&[texture_descriptor.format]);
    let res = generator.generate(&texture_descriptor);
    assert!(res.is_err());
    assert!(res.err() == Some(Error::UnknownFormat(TextureFormat::Rg16Sint)));
}

#[test]
fn render_sanity_check() {
    let size = 512;
    let mip_level_count = 10;
    let format = TextureFormat::R8Unorm;
    let texture_descriptor = descriptor(
        size,
        mip_level_count,
        format,
        RenderMipmapGenerator::required_usage(),
    );
    let generator = RenderMipmapGenerator::new_with_format_hints(&[texture_descriptor.format]);
    let res = generator.generate(&texture_descriptor);
    assert!(res.is_ok());
}

#[test]
fn render_unsupported_usage() {
    let size = 512;
    let mip_level_count = 10;
    let format = TextureFormat::R8Unorm;
    let texture_descriptor = descriptor(size, mip_level_count, format, TextureUsages::empty());
    let generator = RenderMipmapGenerator::new_with_format_hints(&[texture_descriptor.format]);
    let res = generator.generate(&texture_descriptor);
    assert!(res.is_err());
    assert!(res.err() == Some(Error::UnsupportedUsage(TextureUsages::empty())));
}

#[test]
fn render_unknown_format() {
    let size = 512;
    let mip_level_count = 10;
    let format = TextureFormat::Rgba8Sint;
    let texture_descriptor = descriptor(
        size,
        mip_level_count,
        format,
        RenderMipmapGenerator::required_usage(),
    );
    let generator = RenderMipmapGenerator::new_with_format_hints(&[texture_descriptor.format]);
    let res = generator.generate(&texture_descriptor);
    assert!(res.is_err());
    assert!(res.err() == Some(Error::UnknownFormat(TextureFormat::Rgba8Sint)));
}

#[test]
fn copy_sanity_check() {
    let size = 511;
    let mip_level_count = 9;
    let format = TextureFormat::R8Unorm;
    let texture_descriptor = descriptor(
        size,
        mip_level_count,
        format,
        CopyMipmapGenerator::required_usage(),
    );
    let render = RenderMipmapGenerator::new_with_format_hints(&[texture_descriptor.format]);
    let generator = CopyMipmapGenerator::new(&render);
    let res = generator.generate(&texture_descriptor);
    assert!(res.is_ok());
}

#[test]
fn unsupported_format() {
    let size = 511;
    let mip_level_count = 9;
    let format = TextureFormat::R8Unorm;
    let texture_descriptor = descriptor(size, mip_level_count, format, TextureUsages::empty());
    let render = RenderMipmapGenerator::new_with_format_hints(&[texture_descriptor.format]);
    let generator = CopyMipmapGenerator::new(&render);
    let res = generator.generate(&texture_descriptor);
    assert!(res.is_err());
    assert!(res.err() == Some(Error::UnsupportedUsage(texture_descriptor.usage)));
}
