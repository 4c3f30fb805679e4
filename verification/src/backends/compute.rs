//! The compute strategy: one storage-image box-filter dispatch per mip
//! transition.

use crate::descriptor::{TextureDescriptor, TextureDimension};
use crate::error::Error;
use crate::extent::{get_mip_extent, is_power_of_two, spec_mip_extent};
use crate::format::{compute_kernel_for_format, spec_compute_kernel, TextureFormat};
use crate::generator::MipmapGenerator;
use crate::plan::{plan_result_view, MipCommand, MipPlan, PlanView};
use crate::usage::{TextureUsages, TEXTURE_USAGE_STORAGE};
use vstd::arithmetic::power2::is_pow2;
use vstd::prelude::*;
use vstd::seq_lib::lemma_seq_contains_after_push;

verus! {

/// The fixed per-axis work-group size of the box-filter compute kernels.
pub const COMPUTE_WORK_GROUP_SIZE: u32 = 32;

/// Generates mipmaps for textures with storage usage.
pub struct ComputeMipmapGenerator {
    formats: Vec<TextureFormat>,
}

/// The work-group count along one axis for a destination level `dim` texels
/// wide: `dim` divided by the work-group size, floored at one group.
pub open spec fn spec_dispatch_groups(dim: u32) -> u32 {
    let g = dim as int / (COMPUTE_WORK_GROUP_SIZE as int);
    if g == 0 {
        1u32
    } else {
        g as u32
    }
}

fn dispatch_groups(dim: u32) -> (r: u32)
    ensures
        r == spec_dispatch_groups(dim),
{
    let g = dim / COMPUTE_WORK_GROUP_SIZE;
    if g == 0 {
        1
    } else {
        g
    }
}

/// The commands the compute strategy records for `d`: for every mip
/// transition, one dispatch covering the destination level's extent.
pub open spec fn spec_compute_commands(d: TextureDescriptor) -> Seq<MipCommand> {
    Seq::new(
        if d.mip_level_count >= 1 {
            (d.mip_level_count - 1) as nat
        } else {
            0nat
        },
        |i: int|
            {
                let ext = spec_mip_extent(d.size, (i + 1) as u32);
                MipCommand::ComputeDispatch {
                    src_level: i as u32,
                    dst_level: (i + 1) as u32,
                    groups_x: spec_dispatch_groups(ext.width),
                    groups_y: spec_dispatch_groups(ext.height),
                }
            },
    )
}

/// The planned outcome of the compute strategy for `d`, with its validation
/// checks in order: the texture must have power-of-two sides, be 2D, carry
/// storage usage, and use a format the generator was built for.
pub open spec fn spec_compute_plan(g: ComputeMipmapGenerator, d: TextureDescriptor) -> Result<
    PlanView,
    Error,
> {
    if !(is_pow2(d.size.width as int) && is_pow2(d.size.height as int)) {
        Err(Error::NpotTexture)
    } else if d.dimension != TextureDimension::D2 {
        Err(Error::UnsupportedDimension(d.dimension))
    } else if !d.usage.spec_contains(TextureUsages { bits: TEXTURE_USAGE_STORAGE }) {
        Err(Error::UnsupportedUsage(d.usage))
    } else if !g.spec_supports(d.format) {
        Err(Error::UnknownFormat(d.format))
    } else {
        Ok(PlanView { temp_texture: None, commands: spec_compute_commands(d) })
    }
}

impl ComputeMipmapGenerator {
    /// Whether the generator holds a kernel for `format`.
    pub closed spec fn spec_supports(self, format: TextureFormat) -> bool {
        self.formats@.contains(format)
    }

    /// Returns the texture usage `ComputeMipmapGenerator` requires for
    /// mipmap generation.
    pub fn required_usage() -> (r: TextureUsages)
        ensures
            r.bits == TEXTURE_USAGE_STORAGE,
    {
        TextureUsages { bits: TEXTURE_USAGE_STORAGE }
    }

    /// Creates a new `ComputeMipmapGenerator`.  Once created, it can be
    /// used repeatedly to plan mipmaps for any texture with format
    /// specified in `format_hints`; hinted formats without a known compute
    /// kernel are skipped, not an error.
    pub fn new_with_format_hints(format_hints: &[TextureFormat]) -> (r: Self)
        ensures
            forall|f: TextureFormat|
                #[trigger] r.spec_supports(f) <==> (format_hints@.contains(f)
                    && spec_compute_kernel(f) is Some),
    {
        let mut formats: Vec<TextureFormat> = Vec::new();
        let n = format_hints.len();
        let mut i: usize = 0;
        while i < n
            invariant
                i <= n,
                n == format_hints@.len(),
                forall|f: TextureFormat|
                    #[trigger] formats@.contains(f) <==> (format_hints@.take(i as int).contains(f)
                        && spec_compute_kernel(f) is Some),
            decreases n - i,
        {
            let f = format_hints[i];
            let ghost pre = formats@;
            if compute_kernel_for_format(&f).is_some() {
                formats.push(f);
            }
            proof {
                assert(format_hints@.take(i + 1) =~= format_hints@.take(i as int).push(
                    format_hints@[i as int],
                ));
                assert forall|g: TextureFormat|
                    #[trigger] formats@.contains(g) <==> (format_hints@.take(i + 1).contains(g)
                        && spec_compute_kernel(g) is Some) by {
                    lemma_seq_contains_after_push(format_hints@.take(i as int), f, g);
                    if spec_compute_kernel(f) is Some {
                        lemma_seq_contains_after_push(pre, f, g);
                    }
                }
            }
            i += 1;
        }
        proof {
            assert(format_hints@.take(n as int) =~= format_hints@);
        }
        Self { formats }
    }

    /// Whether the generator was built with a kernel for `format`.
    pub fn supports(&self, format: &TextureFormat) -> (r: bool)
        ensures
            r == self.spec_supports(*format),
    {
        let mut i: usize = 0;
        while i < self.formats.len()
            invariant
                i <= self.formats@.len(),
                forall|j: int| 0 <= j < i ==> self.formats@[j] != *format,
            decreases self.formats@.len() - i,
        {
            if self.formats[i] == *format {
                return true;
            }
            i += 1;
        }
        false
    }
}

impl MipmapGenerator for ComputeMipmapGenerator {
    open spec fn plan_spec(&self, texture_descriptor: TextureDescriptor) -> Result<
        PlanView,
        Error,
    > {
        spec_compute_plan(*self, texture_descriptor)
    }

    fn generate(&self, texture_descriptor: &TextureDescriptor) -> (r: Result<MipPlan, Error>) {
        let d = texture_descriptor;
        if !is_power_of_two(d.size.width) || !is_power_of_two(d.size.height) {
            return Err(Error::NpotTexture);
        }
        if d.dimension != TextureDimension::D2 {
            return Err(Error::UnsupportedDimension(d.dimension));
        }
        if !d.usage.contains(Self::required_usage()) {
            return Err(Error::UnsupportedUsage(d.usage));
        }
        if !self.supports(&d.format) {
            return Err(Error::UnknownFormat(d.format));
        }
        let mip_count = d.mip_level_count;
        let mut commands: Vec<MipCommand> = Vec::new();
        let mut mip: u32 = 1;
        while mip < mip_count
            invariant
                1 <= mip,
                mip <= mip_count,
                mip_count == d.mip_level_count,
                commands@ == spec_compute_commands(*d).take(mip - 1),
            decreases mip_count - mip,
        {
            let mip_ext = get_mip_extent(&d.size, mip);
            commands.push(
                MipCommand::ComputeDispatch {
                    src_level: mip - 1,
                    dst_level: mip,
                    groups_x: dispatch_groups(mip_ext.width),
                    groups_y: dispatch_groups(mip_ext.height),
                },
            );
            proof {
                assert(spec_compute_commands(*d).take(mip as int) =~= spec_compute_commands(
                    *d,
                ).take(mip - 1).push(spec_compute_commands(*d)[mip - 1]));
            }
            mip += 1;
        }
        proof {
            assert(commands@ =~= spec_compute_commands(*d));
        }
        Ok(MipPlan { temp_texture: None, commands })
    }
}

} // verus!
