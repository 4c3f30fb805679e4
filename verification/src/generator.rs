//! The contract every generation strategy implements.

use crate::descriptor::TextureDescriptor;
use crate::error::Error;
use crate::plan::{plan_result_view, MipPlan, PlanView};
use vstd::prelude::*;

verus! {

/// MipmapGenerator describes types that can plan mipmap generation for a
/// texture: given the texture's descriptor, they either report a validation
/// error or produce the exact commands that generate every mip level above
/// level 0.
pub trait MipmapGenerator: Sized {
    /// The planned outcome for a descriptor: a pure function of the
    /// generator and the descriptor.
    spec fn plan_spec(&self, texture_descriptor: TextureDescriptor) -> Result<PlanView, Error>;

    /// Plans mipmap generation for a texture described by
    /// `texture_descriptor`.
    fn generate(&self, texture_descriptor: &TextureDescriptor) -> (r: Result<MipPlan, Error>)
        requires
            texture_descriptor.wf(),
        ensures
            plan_result_view(r) == self.plan_spec(*texture_descriptor),
    ;
}

/// Capability checks are stateless: one generator value planning one
/// descriptor reaches the same outcome however many times `generate` is
/// called — any two results that meet its contract are equal.
pub proof fn lemma_generate_idempotent<G: MipmapGenerator>(
    g: &G,
    d: TextureDescriptor,
    r1: Result<MipPlan, Error>,
    r2: Result<MipPlan, Error>,
)
    requires
        plan_result_view(r1) == g.plan_spec(d),
        plan_result_view(r2) == g.plan_spec(d),
    ensures
        r1 is Ok <==> r2 is Ok,
        plan_result_view(r1) == plan_result_view(r2),
{
}

} // verus!
