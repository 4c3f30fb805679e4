//! The buffer layout calculator: row strides for a linear host-visible
//! buffer holding one mip level, padded to the device's row alignment.

use vstd::prelude::*;

verus! {

/// The mandatory alignment, in bytes, of a row in a buffer taking part in a
/// texture copy.
pub const COPY_BYTES_PER_ROW_ALIGNMENT: usize = 256;

/// Relies on `wgpu::COPY_BYTES_PER_ROW_ALIGNMENT`: the row-pitch alignment
/// the device mandates for buffer/texture copies, 256 bytes.
#[verifier::external_body]
fn device_row_alignment() -> (r: u32)
    ensures
        r == 256,
{
    wgpu::COPY_BYTES_PER_ROW_ALIGNMENT
}

/// The bytes needed to extend a row of `unpadded` bytes to the next multiple
/// of the row alignment.
pub open spec fn spec_row_padding(unpadded: int) -> int {
    (COPY_BYTES_PER_ROW_ALIGNMENT - unpadded % (COPY_BYTES_PER_ROW_ALIGNMENT as int)) % (
    COPY_BYTES_PER_ROW_ALIGNMENT as int)
}

/// A row of `unpadded` bytes, padded to the row alignment.
pub open spec fn spec_padded_row(unpadded: int) -> int {
    unpadded + spec_row_padding(unpadded)
}

/// The dimensions of a linear host-visible buffer holding one mip level:
/// the level's size in texels, the texel size, and the dense and padded row
/// strides.
#[derive(Clone, Copy, Debug, PartialEq, Eq, Structural)]
pub struct MipBufferDimensions {
    pub width: usize,
    pub height: usize,
    pub bytes_per_channel: usize,
    pub unpadded_bytes_per_row: usize,
    pub padded_bytes_per_row: usize,
}

/// One mip level read back to the host: a dense byte buffer (no row
/// padding) together with its dimensions and its level index.
#[derive(Debug, PartialEq, Eq)]
pub struct MipBuffer {
    pub buffer: Vec<u8>,
    pub dimensions: MipBufferDimensions,
    pub level: u32,
}

impl MipBufferDimensions {
    /// The internal consistency of computed dimensions: axes floored at 1,
    /// the dense stride exactly `width * bytes_per_channel`, and the padded
    /// stride that row extended to the alignment.
    pub open spec fn wf(self) -> bool {
        &&& self.width >= 1
        &&& self.height >= 1
        &&& self.unpadded_bytes_per_row == self.width * self.bytes_per_channel
        &&& self.padded_bytes_per_row == spec_padded_row(self.unpadded_bytes_per_row as int)
    }

    /// Computes the buffer dimensions for a level of `width` by `height`
    /// texels of `bytes_per_channel` bytes each.  Width and height are
    /// clamped to a minimum of 1.
    pub fn new(width: usize, height: usize, bytes_per_channel: usize) -> (r: Self)
        requires
            (if width == 0 {
                1int
            } else {
                width as int
            }) * bytes_per_channel + COPY_BYTES_PER_ROW_ALIGNMENT <= usize::MAX,
        ensures
            r.width == (if width == 0 {
                1int
            } else {
                width as int
            }),
            r.height == (if height == 0 {
                1int
            } else {
                height as int
            }),
            r.bytes_per_channel == bytes_per_channel,
            r.wf(),
    {
        let width = if width < 1 {
            1
        } else {
            width
        };
        let height = if height < 1 {
            1
        } else {
            height
        };
        let unpadded_bytes_per_row = width * bytes_per_channel;
        let align = device_row_alignment() as usize;
        let padded_bytes_per_row_padding = (align - unpadded_bytes_per_row % align) % align;
        let padded_bytes_per_row = unpadded_bytes_per_row + padded_bytes_per_row_padding;
        Self { width, height, bytes_per_channel, unpadded_bytes_per_row, padded_bytes_per_row }
    }
}

/// The padded row stride is never smaller than the dense one, is always a
/// multiple of the row alignment, and the two are equal exactly when the
/// dense stride is already aligned.
pub proof fn lemma_row_stride_alignment(d: MipBufferDimensions)
    requires
        d.wf(),
    ensures
        d.unpadded_bytes_per_row <= d.padded_bytes_per_row,
        d.padded_bytes_per_row as int % (COPY_BYTES_PER_ROW_ALIGNMENT as int) == 0,
        d.unpadded_bytes_per_row as int % (COPY_BYTES_PER_ROW_ALIGNMENT as int) == 0
            <==> d.padded_bytes_per_row == d.unpadded_bytes_per_row,
{
    let u = d.unpadded_bytes_per_row as int;
    let a = COPY_BYTES_PER_ROW_ALIGNMENT as int;
    let r = u % a;
    vstd::arithmetic::div_mod::lemma_fundamental_div_mod(u, a);
    if r == 0 {
        assert(spec_row_padding(u) == 0);
    } else {
        assert(spec_row_padding(u) == a - r);
        assert((u + (a - r)) % a == 0) by {
            vstd::arithmetic::div_mod::lemma_add_mod_noop(u, a - r, a);
            vstd::arithmetic::div_mod::lemma_mod_self_0(a);
            vstd::arithmetic::div_mod::lemma_small_mod(0nat, a as nat);
        }
    }
}

} // verus!
