//! The copy strategy: render into a temporary half-resolution texture,
//! then copy each of its levels back into the target texture.

use crate::backends::render::{spec_render_src_dst, RenderMipmapGenerator};
use crate::descriptor::TextureDescriptor;
use crate::error::Error;
use crate::extent::{get_mip_extent, spec_mip_extent};
use crate::generator::MipmapGenerator;
use crate::plan::{MipCommand, MipPlan, PlanView, TextureId};
use crate::usage::{
    TextureUsages, TEXTURE_USAGE_COPY_DST, TEXTURE_USAGE_COPY_SRC,
    TEXTURE_USAGE_RENDER_ATTACHMENT, TEXTURE_USAGE_SAMPLED,
};
use vstd::prelude::*;

verus! {

/// Generates mipmaps for textures with sampled usage.
pub struct CopyMipmapGenerator<'a> {
    generator: &'a RenderMipmapGenerator,
}

/// The temporary texture the copy strategy allocates for `d`: half the
/// base resolution, one fewer mip level, the render strategy's required
/// usage plus copy-source.
pub open spec fn spec_temp_descriptor(d: TextureDescriptor) -> TextureDescriptor {
    TextureDescriptor {
        size: spec_mip_extent(d.size, 1),
        mip_level_count: (d.mip_level_count - 1) as u32,
        sample_count: d.sample_count,
        dimension: d.dimension,
        format: d.format,
        usage: TextureUsages {
            bits: TEXTURE_USAGE_RENDER_ATTACHMENT | TEXTURE_USAGE_SAMPLED | TEXTURE_USAGE_COPY_SRC,
        },
    }
}

/// The per-level copies back into the target: level `i` of the temporary
/// texture, at its own extent, into level `i + 1` of the target.
pub open spec fn spec_copy_back_commands(tmp: TextureDescriptor) -> Seq<MipCommand> {
    Seq::new(
        tmp.mip_level_count as nat,
        |i: int|
            MipCommand::CopyTextureToTexture {
                src: TextureId::Temp,
                src_level: i as u32,
                dst: TextureId::Target,
                dst_level: (i + 1) as u32,
                extent: spec_mip_extent(tmp.size, i as u32),
            },
    )
}

/// The planned outcome of the copy strategy for `d`: whatever the
/// underlying render run into the temporary texture reports, followed on
/// success by one copy per generated level.
pub open spec fn spec_copy_plan(render: RenderMipmapGenerator, d: TextureDescriptor) -> Result<
    PlanView,
    Error,
> {
    let tmp = spec_temp_descriptor(d);
    match spec_render_src_dst(render, TextureId::Target, TextureId::Temp, d, tmp, 1u32) {
        Ok(c) => Ok(
            PlanView { temp_texture: Some(tmp), commands: c + spec_copy_back_commands(tmp) },
        ),
        Err(e) => Err(e),
    }
}

impl<'a> CopyMipmapGenerator<'a> {
    /// The render strategy this copy strategy borrows.
    pub closed spec fn render_generator(self) -> RenderMipmapGenerator {
        *self.generator
    }

    /// Creates a new `CopyMipmapGenerator` from an existing
    /// `RenderMipmapGenerator`.  Once created, it can be used repeatedly to
    /// plan mipmaps for any texture supported by the render generator.
    pub fn new(generator: &'a RenderMipmapGenerator) -> (r: Self)
        ensures
            r.render_generator() == *generator,
    {
        Self { generator }
    }

    /// Returns the texture usage `CopyMipmapGenerator` requires for mipmap
    /// generation.
    pub fn required_usage() -> (r: TextureUsages)
        ensures
            r.bits == TEXTURE_USAGE_SAMPLED | TEXTURE_USAGE_COPY_DST,
    {
        TextureUsages { bits: TEXTURE_USAGE_SAMPLED | TEXTURE_USAGE_COPY_DST }
    }
}

impl<'a> MipmapGenerator for CopyMipmapGenerator<'a> {
    open spec fn plan_spec(&self, texture_descriptor: TextureDescriptor) -> Result<
        PlanView,
        Error,
    > {
        spec_copy_plan(self.render_generator(), texture_descriptor)
    }

    fn generate(&self, texture_descriptor: &TextureDescriptor) -> (r: Result<MipPlan, Error>) {
        let d = texture_descriptor;
        // The temporary texture: half the resolution of the original, one
        // fewer mip level; mipmaps are rendered into it and then copied
        // back into the mip levels of the original.
        let tmp_descriptor = TextureDescriptor {
            size: get_mip_extent(&d.size, 1),
            mip_level_count: d.mip_level_count - 1,
            sample_count: d.sample_count,
            dimension: d.dimension,
            format: d.format,
            usage: RenderMipmapGenerator::required_usage().union(
                TextureUsages::from_bits(TEXTURE_USAGE_COPY_SRC),
            ),
        };
        let mut commands = match self.generator.generate_src_dst(
            TextureId::Target,
            TextureId::Temp,
            d,
            &tmp_descriptor,
            1,
        ) {
            Ok(c) => c,
            Err(e) => {
                return Err(e);
            },
        };
        let ghost tmp = spec_temp_descriptor(*d);
        let ghost render_part = commands@;
        let ghost back = spec_copy_back_commands(tmp);
        let mip_count = tmp_descriptor.mip_level_count;
        let mut i: u32 = 0;
        while i < mip_count
            invariant
                i <= mip_count,
                mip_count == tmp.mip_level_count,
                tmp_descriptor == tmp,
                commands@ == render_part + back.take(i as int),
                back == spec_copy_back_commands(tmp),
            decreases mip_count - i,
        {
            commands.push(
                MipCommand::CopyTextureToTexture {
                    src: TextureId::Temp,
                    src_level: i,
                    dst: TextureId::Target,
                    dst_level: i + 1,
                    extent: get_mip_extent(&tmp_descriptor.size, i),
                },
            );
            proof {
                assert(back.take(i + 1) =~= back.take(i as int).push(back[i as int]));
                assert(render_part + back.take(i + 1) =~= (render_part + back.take(i as int)).push(
                    back[i as int],
                ));
            }
            i += 1;
        }
        proof {
            assert(back.take(mip_count as int) =~= back);
            assert(commands@ =~= render_part + back);
        }
        Ok(MipPlan { temp_texture: Some(tmp_descriptor), commands })
    }
}

} // verus!
