use wgpu_mipmap::{
    checkerboard_r8, checkerboard_rgba8, mip_buffer_dimensions, readback_dimensions,
    ComputeMipmapGenerator, Error, Extent3d, MipmapGenerator, TextureDescriptor, TextureDimension,
    TextureFormat, TextureUsages, TEXTURE_USAGE_COPY_DST, TEXTURE_USAGE_COPY_SRC,
    TEXTURE_USAGE_STORAGE,
};

fn descriptor(
    width: u32,
    height: u32,
    mip_level_count: u32,
    format: TextureFormat,
    usage_bits: u32,
) -> TextureDescriptor {
    TextureDescriptor {
        size: Extent3d { width, height, depth: 1 },
        mip_level_count,
        sample_count: 1,
        dimension: TextureDimension::D2,
        format,
        usage: TextureUsages::from_bits(usage_bits),
    }
}

#[test]
fn readback_layouts_cover_every_level() {
    let d = descriptor(
        512,
        512,
        10,
        TextureFormat::R8Unorm,
        TEXTURE_USAGE_STORAGE | TEXTURE_USAGE_COPY_SRC | TEXTURE_USAGE_COPY_DST,
    );
    let dims = readback_dimensions(&d).unwrap();
    assert_eq!(dims.len(), 10);
    assert_eq!(dims[0].width, 512);
    assert_eq!(dims[0].unpadded_bytes_per_row, 512);
    assert_eq!(dims[1].width, 256);
    assert_eq!(dims[1].padded_bytes_per_row, 256);
    let last = dims.last().unwrap();
    assert_eq!(last.width, 1);
    assert_eq!(last.height, 1);
    assert_eq!(last.unpadded_bytes_per_row, 1);
    assert_eq!(last.padded_bytes_per_row, 256);
}

#[test]
fn readback_rejects_format_without_byte_layout() {
    let d = descriptor(512, 512, 10, TextureFormat::Depth32Float, TEXTURE_USAGE_COPY_SRC);
    let res = readback_dimensions(&d);
    assert_eq!(res.err(), Some(Error::UnknownFormat(TextureFormat::Depth32Float)));
}

#[test]
fn level_dimensions_follow_the_extent() {
    let d = descriptor(511, 511, 9, TextureFormat::Rgba8Unorm, TEXTURE_USAGE_COPY_SRC);
    let m0 = mip_buffer_dimensions(&d, 0);
    assert_eq!((m0.width, m0.height, m0.bytes_per_channel), (511, 511, 4));
    assert_eq!(m0.unpadded_bytes_per_row, 2044);
    assert_eq!(m0.padded_bytes_per_row, 2048);
    let m1 = mip_buffer_dimensions(&d, 1);
    assert_eq!((m1.width, m1.height), (255, 255));
    assert_eq!(m1.unpadded_bytes_per_row, 1020);
    assert_eq!(m1.padded_bytes_per_row, 1024);
    let m8 = mip_buffer_dimensions(&d, 8);
    assert_eq!((m8.width, m8.height), (1, 1));
}

#[test]
fn scenario_r8_storage_chain() {
    // A 512x512 single-channel checkerboard with storage usage: ten mip
    // levels down to 1x1, planned by the compute strategy; the buffer of
    // the last level holds exactly one byte.
    let size = 512;
    let mip_level_count = 10;
    let checkerboard_size = 16;
    let data = checkerboard_r8(size, size, checkerboard_size);
    assert_eq!(data.len(), (size * size) as usize);
    assert_eq!(data[0], 0);
    let d = descriptor(
        size,
        size,
        mip_level_count,
        TextureFormat::R8Unorm,
        TEXTURE_USAGE_STORAGE | TEXTURE_USAGE_COPY_SRC | TEXTURE_USAGE_COPY_DST,
    );
    let generator = ComputeMipmapGenerator::new_with_format_hints(&[d.format]);
    assert!(generator.generate(&d).is_ok());
    let dims = readback_dimensions(&d).unwrap();
    assert_eq!(dims.len(), mip_level_count as usize);
    let last = dims.last().unwrap();
    assert_eq!(last.width * last.height * last.bytes_per_channel, 1);
}

#[test]
fn scenario_srgb_storage_chain() {
    // The same checkerboard as four-channel sRGB data: the gamma-aware
    // kernel is selected, and every level's buffer keeps four bytes per
    // texel with alpha bytes of 255 in the uploaded data.
    let size = 512;
    let mip_level_count = 10;
    let checkerboard_size = 16;
    let data = checkerboard_rgba8(size, size, checkerboard_size);
    assert_eq!(data.len(), (4 * size * size) as usize);
    assert_eq!(data[3], 255);
    let d = descriptor(
        size,
        size,
        mip_level_count,
        TextureFormat::Rgba8UnormSrgb,
        TEXTURE_USAGE_STORAGE | TEXTURE_USAGE_COPY_SRC | TEXTURE_USAGE_COPY_DST,
    );
    let generator = ComputeMipmapGenerator::new_with_format_hints(&[d.format]);
    assert!(generator.generate(&d).is_ok());
    let dims = readback_dimensions(&d).unwrap();
    assert_eq!(dims.len(), mip_level_count as usize);
    let last = dims.last().unwrap();
    assert_eq!(last.width * last.height * last.bytes_per_channel, 4);
}
