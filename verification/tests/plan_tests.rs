use wgpu_mipmap::{
    ComputeMipmapGenerator, CopyMipmapGenerator, Error, Extent3d, MipCommand, MipmapGenerator,
    RecommendedMipmapGenerator, RenderMipmapGenerator, TextureDescriptor, TextureDimension,
    TextureFormat, TextureId, TextureUsages, TEXTURE_USAGE_COPY_DST, TEXTURE_USAGE_COPY_SRC,
    TEXTURE_USAGE_RENDER_ATTACHMENT, TEXTURE_USAGE_SAMPLED, TEXTURE_USAGE_STORAGE,
};

fn descriptor(
    width: u32,
    height: u32,
    mip_level_count: u32,
    format: TextureFormat,
    usage: TextureUsages,
) -> TextureDescriptor {
    TextureDescriptor {
        size: Extent3d { width, height, depth: 1 },
        mip_level_count,
        sample_count: 1,
        dimension: TextureDimension::D2,
        format,
        usage,
    }
}

#[test]
fn compute_plan_dispatches_every_transition() {
    let d = descriptor(
        512,
        512,
        10,
        TextureFormat::R8Unorm,
        ComputeMipmapGenerator::required_usage(),
    );
    let generator = ComputeMipmapGenerator::new_with_format_hints(&[d.format]);
    let plan = generator.generate(&d).unwrap();
    assert!(plan.temp_texture.is_none());
    assert_eq!(plan.commands.len(), 9);
    assert_eq!(
        plan.commands[0],
        MipCommand::ComputeDispatch { src_level: 0, dst_level: 1, groups_x: 8, groups_y: 8 }
    );
    assert_eq!(
        plan.commands[3],
        MipCommand::ComputeDispatch { src_level: 3, dst_level: 4, groups_x: 1, groups_y: 1 }
    );
    assert_eq!(
        plan.commands[8],
        MipCommand::ComputeDispatch { src_level: 8, dst_level: 9, groups_x: 1, groups_y: 1 }
    );
}

#[test]
fn render_plan_draws_into_each_level() {
    let d = descriptor(
        512,
        512,
        10,
        TextureFormat::R8Unorm,
        RenderMipmapGenerator::required_usage(),
    );
    let generator = RenderMipmapGenerator::new_with_format_hints(&[d.format]);
    let plan = generator.generate(&d).unwrap();
    assert!(plan.temp_texture.is_none());
    assert_eq!(plan.commands.len(), 9);
    assert_eq!(
        plan.commands[0],
        MipCommand::RenderDraw {
            src: TextureId::Target,
            src_level: 0,
            dst: TextureId::Target,
            dst_level: 1,
        }
    );
    assert_eq!(
        plan.commands[8],
        MipCommand::RenderDraw {
            src: TextureId::Target,
            src_level: 8,
            dst: TextureId::Target,
            dst_level: 9,
        }
    );
}

#[test]
fn copy_plan_uses_half_size_temporary() {
    let d = descriptor(
        511,
        511,
        9,
        TextureFormat::R8Unorm,
        CopyMipmapGenerator::required_usage(),
    );
    let render = RenderMipmapGenerator::new_with_format_hints(&[d.format]);
    let generator = CopyMipmapGenerator::new(&render);
    let plan = generator.generate(&d).unwrap();
    let tmp = plan.temp_texture.expect("the copy strategy allocates a temporary texture");
    assert_eq!(tmp.size, Extent3d { width: 255, height: 255, depth: 1 });
    assert_eq!(tmp.mip_level_count, 8);
    assert_eq!(tmp.format, d.format);
    assert_eq!(
        tmp.usage.bits,
        TEXTURE_USAGE_RENDER_ATTACHMENT | TEXTURE_USAGE_SAMPLED | TEXTURE_USAGE_COPY_SRC
    );
    // Eight draws into the temporary texture, then eight copies back.
    assert_eq!(plan.commands.len(), 16);
    assert_eq!(
        plan.commands[0],
        MipCommand::RenderDraw {
            src: TextureId::Target,
            src_level: 0,
            dst: TextureId::Temp,
            dst_level: 0,
        }
    );
    assert_eq!(
        plan.commands[1],
        MipCommand::RenderDraw {
            src: TextureId::Temp,
            src_level: 0,
            dst: TextureId::Temp,
            dst_level: 1,
        }
    );
    assert_eq!(
        plan.commands[8],
        MipCommand::CopyTextureToTexture {
            src: TextureId::Temp,
            src_level: 0,
            dst: TextureId::Target,
            dst_level: 1,
            extent: Extent3d { width: 255, height: 255, depth: 1 },
        }
    );
    assert_eq!(
        plan.commands[15],
        MipCommand::CopyTextureToTexture {
            src: TextureId::Temp,
            src_level: 7,
            dst: TextureId::Target,
            dst_level: 8,
            extent: Extent3d { width: 1, height: 1, depth: 1 },
        }
    );
}

#[test]
fn recommended_prefers_compute() {
    let usage = TextureUsages::from_bits(
        TEXTURE_USAGE_STORAGE | TEXTURE_USAGE_SAMPLED | TEXTURE_USAGE_RENDER_ATTACHMENT,
    );
    let d = descriptor(512, 512, 10, TextureFormat::R8Unorm, usage);
    let generator = RecommendedMipmapGenerator::new();
    let plan = generator.generate(&d).unwrap();
    assert!(matches!(plan.commands[0], MipCommand::ComputeDispatch { .. }));
}

#[test]
fn recommended_falls_back_to_render_for_npot() {
    let usage = TextureUsages::from_bits(TEXTURE_USAGE_SAMPLED | TEXTURE_USAGE_RENDER_ATTACHMENT);
    let d = descriptor(511, 511, 9, TextureFormat::R8Unorm, usage);
    let generator = RecommendedMipmapGenerator::new();
    let plan = generator.generate(&d).unwrap();
    assert!(matches!(plan.commands[0], MipCommand::RenderDraw { .. }));
    assert!(plan.temp_texture.is_none());
}

#[test]
fn npot_compute_rejects_copy_plans() {
    let d = descriptor(
        511,
        511,
        9,
        TextureFormat::R8Unorm,
        CopyMipmapGenerator::required_usage(),
    );
    let compute = ComputeMipmapGenerator::new_with_format_hints(&[d.format]);
    assert_eq!(compute.generate(&d).err(), Some(Error::NpotTexture));
    let render = RenderMipmapGenerator::new_with_format_hints(&[d.format]);
    let copy = CopyMipmapGenerator::new(&render);
    assert!(copy.generate(&d).is_ok());
}

#[test]
fn recommended_reports_usage_when_every_strategy_fails() {
    let usage = TextureUsages::from_bits(TEXTURE_USAGE_COPY_SRC);
    let d = descriptor(512, 512, 10, TextureFormat::R8Unorm, usage);
    let generator = RecommendedMipmapGenerator::new();
    let res = generator.generate(&d);
    assert_eq!(res.err(), Some(Error::UnsupportedUsage(usage)));
}

#[test]
fn unknown_kernel_format_rejected_by_every_strategy() {
    let usage = TextureUsages::from_bits(
        TEXTURE_USAGE_STORAGE | TEXTURE_USAGE_SAMPLED | TEXTURE_USAGE_RENDER_ATTACHMENT
            | TEXTURE_USAGE_COPY_DST,
    );
    let d = descriptor(512, 512, 10, TextureFormat::Rg16Sint, usage);
    let compute = ComputeMipmapGenerator::new_with_format_hints(&[d.format]);
    assert_eq!(compute.generate(&d).err(), Some(Error::UnknownFormat(TextureFormat::Rg16Sint)));
    let render = RenderMipmapGenerator::new_with_format_hints(&[d.format]);
    assert_eq!(render.generate(&d).err(), Some(Error::UnknownFormat(TextureFormat::Rg16Sint)));
    let copy = CopyMipmapGenerator::new(&render);
    assert_eq!(copy.generate(&d).err(), Some(Error::UnknownFormat(TextureFormat::Rg16Sint)));
}

#[test]
fn generate_outcome_is_repeatable() {
    let cases = [
        descriptor(
            512,
            512,
            10,
            TextureFormat::R8Unorm,
            ComputeMipmapGenerator::required_usage(),
        ),
        descriptor(511, 511, 9, TextureFormat::R8Unorm, CopyMipmapGenerator::required_usage()),
        descriptor(512, 512, 10, TextureFormat::Rg16Sint, TextureUsages::empty()),
    ];
    let generator = RecommendedMipmapGenerator::new();
    for d in cases.iter() {
        let first = generator.generate(d);
        let second = generator.generate(d);
        assert_eq!(first, second);
    }
}
