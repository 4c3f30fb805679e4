//! The recommended dispatcher: tries the compute, render, and copy
//! strategies in that fixed order and settles for the first that plans
//! successfully.

use crate::backends::compute::{spec_compute_plan, ComputeMipmapGenerator};
use crate::backends::copy::{spec_copy_plan, CopyMipmapGenerator};
use crate::backends::render::{spec_render_plan, RenderMipmapGenerator};
use crate::descriptor::TextureDescriptor;
use crate::error::Error;
use crate::format::{
    spec_compute_kernel, spec_sample_type, spec_supported_formats, supported_formats,
    TextureFormat, TextureSampleType,
};
use crate::generator::MipmapGenerator;
use crate::plan::{MipPlan, PlanView};
use vstd::prelude::*;

verus! {

/// Generates mipmaps for textures with any usage using the compute,
/// render, or copy strategies.
pub struct RecommendedMipmapGenerator {
    render: RenderMipmapGenerator,
    compute: ComputeMipmapGenerator,
}

/// The planned outcome of the recommended dispatcher for `d`: the first of
/// compute, render, and copy that plans successfully; when all three fail,
/// the texture's usage bitset is what disqualified every path, and a single
/// summary error carries it.
pub open spec fn spec_recommended_plan(
    g: RecommendedMipmapGenerator,
    d: TextureDescriptor,
) -> Result<PlanView, Error> {
    if spec_compute_plan(g.compute_generator(), d) is Ok {
        spec_compute_plan(g.compute_generator(), d)
    } else if spec_render_plan(g.render_generator(), d) is Ok {
        spec_render_plan(g.render_generator(), d)
    } else if spec_copy_plan(g.render_generator(), d) is Ok {
        spec_copy_plan(g.render_generator(), d)
    } else {
        Err(Error::UnsupportedUsage(d.usage))
    }
}

impl RecommendedMipmapGenerator {
    /// The internal compute strategy.
    pub closed spec fn compute_generator(self) -> ComputeMipmapGenerator {
        self.compute
    }

    /// The internal render strategy, also borrowed by the copy strategy.
    pub closed spec fn render_generator(self) -> RenderMipmapGenerator {
        self.render
    }

    /// Creates a new `RecommendedMipmapGenerator` over every format with a
    /// known kernel for at least one strategy.  Once created, it can be
    /// used repeatedly to plan mipmaps for any texture with a supported
    /// format.
    pub fn new() -> (r: Self)
        ensures
            forall|f: TextureFormat|
                #[trigger] r.compute_generator().spec_supports(f) <==> (
                spec_supported_formats().contains(f) && spec_compute_kernel(f) is Some),
            forall|f: TextureFormat|
                #[trigger] r.render_generator().spec_supports(f) <==> (
                spec_supported_formats().contains(f) && spec_sample_type(f)
                    == (TextureSampleType::Float { filterable: true })),
    {
        let formats = supported_formats();
        Self::new_with_format_hints(formats.as_slice())
    }

    /// Creates a new `RecommendedMipmapGenerator`.  Once created, it can be
    /// used repeatedly to plan mipmaps for any texture with format
    /// specified in `format_hints`.  Hints no strategy has a kernel for are
    /// accepted anyway; planning for them simply fails with
    /// `Error::UnknownFormat`.
    pub fn new_with_format_hints(format_hints: &[TextureFormat]) -> (r: Self)
        ensures
            forall|f: TextureFormat|
                #[trigger] r.compute_generator().spec_supports(f) <==> (format_hints@.contains(f)
                    && spec_compute_kernel(f) is Some),
            forall|f: TextureFormat|
                #[trigger] r.render_generator().spec_supports(f) <==> (format_hints@.contains(f)
                    && spec_sample_type(f) == (TextureSampleType::Float { filterable: true })),
    {
        let render = RenderMipmapGenerator::new_with_format_hints(format_hints);
        let compute = ComputeMipmapGenerator::new_with_format_hints(format_hints);
        Self { render, compute }
    }
}

impl MipmapGenerator for RecommendedMipmapGenerator {
    open spec fn plan_spec(&self, texture_descriptor: TextureDescriptor) -> Result<
        PlanView,
        Error,
    > {
        spec_recommended_plan(*self, texture_descriptor)
    }

    fn generate(&self, texture_descriptor: &TextureDescriptor) -> (r: Result<MipPlan, Error>) {
        match self.compute.generate(texture_descriptor) {
            Ok(plan) => {
                return Ok(plan);
            },
            Err(_) => {},
        }
        match self.render.generate(texture_descriptor) {
            Ok(plan) => {
                return Ok(plan);
            },
            Err(_) => {},
        }
        match CopyMipmapGenerator::new(&self.render).generate(texture_descriptor) {
            Ok(plan) => {
                return Ok(plan);
            },
            Err(_) => {},
        }
        Err(Error::UnsupportedUsage(texture_descriptor.usage))
    }
}

} // verus!
