//! Mipmap generation planning for wgpu textures.
//!
//! The crate decides, for an arbitrary 2D texture descriptor, how a full
//! mipmap chain is generated: which execution strategy applies (compute,
//! render, or copy, with an automatic fallback chain), which validation
//! errors a descriptor provokes, and the exact sequence of device commands
//! each strategy records, together with the buffer-layout arithmetic that a
//! host readback of the resulting levels needs.  Everything here is plain
//! data and arithmetic and is verified; the companion application crate
//! replays the planned commands against a real `wgpu` device.

mod backends;
mod descriptor;
mod error;
mod extent;
mod format;
mod generator;
mod layout;
mod plan;
mod readback;
mod usage;
mod util;

pub use crate::backends::compute::{
    spec_compute_commands, spec_compute_plan, spec_dispatch_groups, ComputeMipmapGenerator,
    COMPUTE_WORK_GROUP_SIZE,
};
pub use crate::backends::copy::{
    spec_copy_back_commands, spec_copy_plan, spec_temp_descriptor, CopyMipmapGenerator,
};
pub use crate::backends::recommended::{spec_recommended_plan, RecommendedMipmapGenerator};
pub use crate::backends::render::{
    spec_render_commands, spec_render_plan, spec_render_src_dst, spec_src_dst_wf,
    RenderMipmapGenerator,
};
pub use crate::descriptor::{TextureDescriptor, TextureDimension};
pub use crate::error::Error;
pub use crate::extent::{
    get_mip_extent, is_power_of_two, lemma_mip_extent_compose, spec_mip_dim, spec_mip_extent,
    Extent3d,
};
pub use crate::format::{
    compute_kernel_for_format, format_bytes_per_channel, supported_formats, to_sample_type,
    try_bytes_per_channel, ComputeKernel, TextureFormat, TextureSampleType,
};
pub use crate::generator::{lemma_generate_idempotent, MipmapGenerator};
pub use crate::layout::{
    lemma_row_stride_alignment, MipBuffer, MipBufferDimensions, COPY_BYTES_PER_ROW_ALIGNMENT,
};
pub use crate::plan::{plan_result_view, MipCommand, MipPlan, PlanView, TextureId};
pub use crate::readback::{
    dense_from_padded, lemma_dense_roundtrip, mip_buffer_dimensions, readback_dimensions,
    spec_dense_rows, spec_level_dimensions,
};
pub use crate::usage::{
    TextureUsages, TEXTURE_USAGE_COPY_DST, TEXTURE_USAGE_COPY_SRC,
    TEXTURE_USAGE_RENDER_ATTACHMENT, TEXTURE_USAGE_SAMPLED, TEXTURE_USAGE_STORAGE,
};
pub use crate::util::{
    checkerboard_r8, checkerboard_rgba8, spec_checker_value, spec_checkerboard_r8,
    spec_checkerboard_rgba8,
};
