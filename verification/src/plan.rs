//! The command plan a strategy records: plain data describing every device
//! command a `generate` call encodes, in order.

use crate::descriptor::TextureDescriptor;
use crate::error::Error;
use crate::extent::Extent3d;
use vstd::prelude::*;

verus! {

/// Which texture a command addresses: the caller's texture, or the
/// temporary half-resolution texture the copy strategy allocates.
#[derive(Clone, Copy, Debug, PartialEq, Eq, Structural)]
pub enum TextureId {
    Target,
    Temp,
}

/// One device command recorded while generating a mip chain.
#[derive(Clone, Copy, Debug, PartialEq, Eq, Structural)]
pub enum MipCommand {
    /// One compute dispatch: the box-filter kernel reads the single-level
    /// storage view of `src_level` and writes that of `dst_level`, with the
    /// given work-group grid.
    ComputeDispatch { src_level: u32, dst_level: u32, groups_x: u32, groups_y: u32 },
    /// One full-screen-triangle render pass: the box-filter fragment kernel
    /// samples the single-level view of `src_level` of `src` and draws into
    /// the view of `dst_level` of `dst`.
    RenderDraw { src: TextureId, src_level: u32, dst: TextureId, dst_level: u32 },
    /// One texture-to-texture copy of `extent` texels from `src_level` of
    /// `src` into `dst_level` of `dst`.
    CopyTextureToTexture {
        src: TextureId,
        src_level: u32,
        dst: TextureId,
        dst_level: u32,
        extent: Extent3d,
    },
}

/// Everything a strategy asks the device to do for one `generate` call: an
/// optional temporary texture to create first, then the commands to record,
/// in order.
#[derive(Debug, PartialEq, Eq)]
pub struct MipPlan {
    pub temp_texture: Option<TextureDescriptor>,
    pub commands: Vec<MipCommand>,
}

/// The mathematical value of a `MipPlan`.
pub struct PlanView {
    pub temp_texture: Option<TextureDescriptor>,
    pub commands: Seq<MipCommand>,
}

impl View for MipPlan {
    type V = PlanView;

    open spec fn view(&self) -> PlanView {
        PlanView { temp_texture: self.temp_texture, commands: self.commands@ }
    }
}

/// The mathematical value of a `generate` result.
pub open spec fn plan_result_view(r: Result<MipPlan, Error>) -> Result<PlanView, Error> {
    match r {
        Ok(p) => Ok(p@),
        Err(e) => Err(e),
    }
}

/// The mathematical value of a planned command list.
pub open spec fn commands_result_view(r: Result<Vec<MipCommand>, Error>) -> Result<
    Seq<MipCommand>,
    Error,
> {
    match r {
        Ok(c) => Ok(c@),
        Err(e) => Err(e),
    }
}

} // verus!
