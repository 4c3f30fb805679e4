//! The render strategy: one full-screen-triangle box-filter pass per mip
//! transition, sampling the previous level and drawing into the next.

use crate::descriptor::{TextureDescriptor, TextureDimension};
use crate::error::Error;
use crate::extent::spec_mip_extent;
use crate::format::{to_sample_type, spec_sample_type, TextureFormat, TextureSampleType};
use crate::generator::MipmapGenerator;
use crate::plan::{commands_result_view, MipCommand, MipPlan, PlanView, TextureId};
use crate::usage::{
    TextureUsages, TEXTURE_USAGE_RENDER_ATTACHMENT, TEXTURE_USAGE_SAMPLED,
};
use vstd::prelude::*;
use vstd::seq_lib::lemma_seq_contains_after_push;

verus! {

/// Generates mipmaps for textures with render-attachment usage.
pub struct RenderMipmapGenerator {
    formats: Vec<TextureFormat>,
}

/// The internal caller contract of `generate_src_dst`: source and
/// destination must share format and dimensionality, and either describe
/// the same texture (equal mip count and extent, no level offset) or the
/// destination must be the source's mip-level-1 extent with one fewer
/// level, written one level down.  Violations are programmer errors of this
/// library, not caller mistakes.
pub open spec fn spec_src_dst_wf(
    src: TextureDescriptor,
    dst: TextureDescriptor,
    dst_mip_offset: u32,
) -> bool {
    &&& src.format == dst.format
    &&& src.dimension == dst.dimension
    &&& ({
        ||| (src.mip_level_count == dst.mip_level_count && src.size == dst.size && dst_mip_offset
            == 0)
        ||| (dst.size == spec_mip_extent(src.size, 1) && dst.mip_level_count + 1
            == src.mip_level_count && dst_mip_offset == 1)
    })
}

/// The passes the render strategy records: for every transition, a draw
/// sampling the previous level (level 0 of `src_id` for the first
/// transition, earlier destination levels afterwards) into the next level
/// of `dst_id`, offset down by `dst_mip_offset`.
pub open spec fn spec_render_commands(
    src_id: TextureId,
    dst_id: TextureId,
    src: TextureDescriptor,
    dst_mip_offset: u32,
) -> Seq<MipCommand> {
    Seq::new(
        if src.mip_level_count >= 1 {
            (src.mip_level_count - 1) as nat
        } else {
            0nat
        },
        |i: int|
            MipCommand::RenderDraw {
                src: if i == 0 {
                    src_id
                } else {
                    dst_id
                },
                src_level: if i == 0 {
                    0u32
                } else {
                    (i - dst_mip_offset) as u32
                },
                dst: dst_id,
                dst_level: (i + 1 - dst_mip_offset) as u32,
            },
    )
}

/// The outcome of `generate_src_dst`, with its validation checks in order:
/// the source must be 2D and sampleable, the destination must carry the
/// render strategy's full required usage, and the format must be one the
/// generator was built for.
pub open spec fn spec_render_src_dst(
    g: RenderMipmapGenerator,
    src_id: TextureId,
    dst_id: TextureId,
    src: TextureDescriptor,
    dst: TextureDescriptor,
    dst_mip_offset: u32,
) -> Result<Seq<MipCommand>, Error> {
    if src.dimension != TextureDimension::D2 {
        Err(Error::UnsupportedDimension(src.dimension))
    } else if !src.usage.spec_contains(TextureUsages { bits: TEXTURE_USAGE_SAMPLED }) {
        Err(Error::UnsupportedUsage(src.usage))
    } else if !dst.usage.spec_contains(
        TextureUsages { bits: TEXTURE_USAGE_RENDER_ATTACHMENT | TEXTURE_USAGE_SAMPLED },
    ) {
        Err(Error::UnsupportedUsage(dst.usage))
    } else if !g.spec_supports(src.format) {
        Err(Error::UnknownFormat(src.format))
    } else {
        Ok(spec_render_commands(src_id, dst_id, src, dst_mip_offset))
    }
}

/// The planned outcome of the render strategy for `d`: an in-place
/// source-to-destination run over a single texture, with no level offset.
pub open spec fn spec_render_plan(g: RenderMipmapGenerator, d: TextureDescriptor) -> Result<
    PlanView,
    Error,
> {
    match spec_render_src_dst(g, TextureId::Target, TextureId::Target, d, d, 0u32) {
        Ok(c) => Ok(PlanView { temp_texture: None, commands: c }),
        Err(e) => Err(e),
    }
}

impl RenderMipmapGenerator {
    /// Whether the generator holds a render pipeline for `format`.
    pub closed spec fn spec_supports(self, format: TextureFormat) -> bool {
        self.formats@.contains(format)
    }

    /// Returns the texture usage `RenderMipmapGenerator` requires for
    /// mipmap generation.
    pub fn required_usage() -> (r: TextureUsages)
        ensures
            r.bits == TEXTURE_USAGE_RENDER_ATTACHMENT | TEXTURE_USAGE_SAMPLED,
    {
        TextureUsages { bits: TEXTURE_USAGE_RENDER_ATTACHMENT | TEXTURE_USAGE_SAMPLED }
    }

    /// Creates a new `RenderMipmapGenerator`.  Once created, it can be used
    /// repeatedly to plan mipmaps for any texture with format specified in
    /// `format_hints`; only formats of the filterable floating-point
    /// sample class get a pipeline, the rest are skipped, not an error.
    pub fn new_with_format_hints(format_hints: &[TextureFormat]) -> (r: Self)
        ensures
            forall|f: TextureFormat|
                #[trigger] r.spec_supports(f) <==> (format_hints@.contains(f) && spec_sample_type(
                    f,
                ) == (TextureSampleType::Float { filterable: true })),
    {
        let mut formats: Vec<TextureFormat> = Vec::new();
        let n = format_hints.len();
        let mut i: usize = 0;
        while i < n
            invariant
                i <= n,
                n == format_hints@.len(),
                forall|f: TextureFormat|
                    #[trigger] formats@.contains(f) <==> (format_hints@.take(i as int).contains(f)
                        && spec_sample_type(f) == (TextureSampleType::Float { filterable: true })),
            decreases n - i,
        {
            let f = format_hints[i];
            let ghost pre = formats@;
            let st = to_sample_type(&f);
            if st == (TextureSampleType::Float { filterable: true }) {
                formats.push(f);
            }
            proof {
                assert(format_hints@.take(i + 1) =~= format_hints@.take(i as int).push(
                    format_hints@[i as int],
                ));
                assert forall|g: TextureFormat|
                    #[trigger] formats@.contains(g) <==> (format_hints@.take(i + 1).contains(g)
                        && spec_sample_type(g) == (TextureSampleType::Float {
                        filterable: true,
                    })) by {
                    lemma_seq_contains_after_push(format_hints@.take(i as int), f, g);
                    if spec_sample_type(f) == (TextureSampleType::Float { filterable: true }) {
                        lemma_seq_contains_after_push(pre, f, g);
                    }
                }
            }
            i += 1;
        }
        proof {
            assert(format_hints@.take(n as int) =~= format_hints@);
        }
        Self { formats }
    }

    /// Whether the generator was built with a pipeline for `format`.
    pub fn supports(&self, format: &TextureFormat) -> (r: bool)
        ensures
            r == self.spec_supports(*format),
    {
        let mut i: usize = 0;
        while i < self.formats.len()
            invariant
                i <= self.formats@.len(),
                forall|j: int| 0 <= j < i ==> self.formats@[j] != *format,
            decreases self.formats@.len() - i,
        {
            if self.formats[i] == *format {
                return true;
            }
            i += 1;
        }
        false
    }

    /// Plans mip generation from level 0 of `src_texture` into levels
    /// `dst_mip_offset..` of `dst_texture`.  The first transition samples
    /// the source texture, later ones sample the destination's previous
    /// level; this indirection lets the copy strategy run the render
    /// strategy against a second, smaller texture.
    pub(crate) fn generate_src_dst(
        &self,
        src_texture: TextureId,
        dst_texture: TextureId,
        src_texture_descriptor: &TextureDescriptor,
        dst_texture_descriptor: &TextureDescriptor,
        dst_mip_offset: u32,
    ) -> (r: Result<Vec<MipCommand>, Error>)
        requires
            spec_src_dst_wf(*src_texture_descriptor, *dst_texture_descriptor, dst_mip_offset),
        ensures
            commands_result_view(r) == spec_render_src_dst(
                *self,
                src_texture,
                dst_texture,
                *src_texture_descriptor,
                *dst_texture_descriptor,
                dst_mip_offset,
            ),
    {
        let src = src_texture_descriptor;
        let dst = dst_texture_descriptor;
        if src.dimension != TextureDimension::D2 {
            return Err(Error::UnsupportedDimension(src.dimension));
        }
        if !src.usage.contains(TextureUsages::from_bits(TEXTURE_USAGE_SAMPLED)) {
            return Err(Error::UnsupportedUsage(src.usage));
        }
        if !dst.usage.contains(Self::required_usage()) {
            return Err(Error::UnsupportedUsage(dst.usage));
        }
        if !self.supports(&src.format) {
            return Err(Error::UnknownFormat(src.format));
        }
        let src_mip_count = src.mip_level_count;
        let ghost cmds = spec_render_commands(src_texture, dst_texture, *src, dst_mip_offset);
        let mut commands: Vec<MipCommand> = Vec::new();
        let mut mip: u32 = 1;
        while mip < src_mip_count
            invariant
                1 <= mip,
                mip <= src_mip_count || (mip == 1 && src_mip_count == 0),
                src_mip_count == src.mip_level_count,
                dst_mip_offset == 0 || dst_mip_offset == 1,
                commands@ == cmds.take(mip - 1),
                cmds == spec_render_commands(src_texture, dst_texture, *src, dst_mip_offset),
            decreases src_mip_count - mip,
        {
            let draw_src = if mip == 1 {
                src_texture
            } else {
                dst_texture
            };
            let src_level = if mip == 1 {
                0
            } else {
                mip - 1 - dst_mip_offset
            };
            commands.push(
                MipCommand::RenderDraw {
                    src: draw_src,
                    src_level,
                    dst: dst_texture,
                    dst_level: mip - dst_mip_offset,
                },
            );
            proof {
                assert(cmds.take(mip as int) =~= cmds.take(mip - 1).push(cmds[mip - 1]));
            }
            mip += 1;
        }
        proof {
            assert(commands@ =~= cmds);
        }
        Ok(commands)
    }
}

impl MipmapGenerator for RenderMipmapGenerator {
    open spec fn plan_spec(&self, texture_descriptor: TextureDescriptor) -> Result<
        PlanView,
        Error,
    > {
        spec_render_plan(*self, texture_descriptor)
    }

    fn generate(&self, texture_descriptor: &TextureDescriptor) -> (r: Result<MipPlan, Error>) {
        match self.generate_src_dst(
            TextureId::Target,
            TextureId::Target,
            texture_descriptor,
            texture_descriptor,
            0,
        ) {
            Ok(commands) => Ok(MipPlan { temp_texture: None, commands }),
            Err(e) => Err(e),
        }
    }
}

} // verus!
