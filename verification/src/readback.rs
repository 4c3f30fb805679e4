//! The host side of the readback pipeline: the per-level buffer layouts a
//! readback needs, and the decoding of alignment-padded rows into the dense
//! buffers callers receive.

use crate::descriptor::TextureDescriptor;
use crate::error::Error;
use crate::extent::{get_mip_extent, spec_mip_dim};
use crate::format::{format_bytes_per_channel, spec_bytes_per_channel, try_bytes_per_channel};
use crate::layout::{MipBufferDimensions, COPY_BYTES_PER_ROW_ALIGNMENT};
use vstd::arithmetic::div_mod::{
    lemma_div_is_ordered_by_denominator, lemma_fundamental_div_mod, lemma_mod_bound,
    lemma_multiply_divide_lt,
};
use vstd::arithmetic::mul::{
    lemma_mul_inequality, lemma_mul_is_distributive_add_other_way,
};
use vstd::arithmetic::power2::{lemma2_to64, lemma_pow2_pos, pow2};
use vstd::prelude::*;

verus! {

/// What the host-visible buffer of mip level `level` of `d` must look
/// like: the level's extent, the format's texel size, and the two row
/// strides derived from them.
pub open spec fn spec_level_dimensions(
    m: MipBufferDimensions,
    d: TextureDescriptor,
    level: u32,
) -> bool {
    &&& m.width == spec_mip_dim(d.size.width, level)
    &&& m.height == spec_mip_dim(d.size.height, level)
    &&& Some(m.bytes_per_channel) == spec_bytes_per_channel(d.format)
    &&& m.wf()
}

proof fn lemma_mip_dim_bounded(base: u32, level: u32)
    ensures
        spec_mip_dim(base, level) <= (if base == 0 {
            1int
        } else {
            base as int
        }),
        spec_mip_dim(base, level) >= 1,
{
    lemma2_to64();
    lemma_pow2_pos(level as nat);
    lemma_div_is_ordered_by_denominator(base as int, 1, pow2(level as nat) as int);
}

/// Computes the buffer dimensions of one mip level of `d`.
pub fn mip_buffer_dimensions(texture_descriptor: &TextureDescriptor, level: u32) -> (r:
    MipBufferDimensions)
    requires
        spec_bytes_per_channel(texture_descriptor.format) matches Some(b) ==> (if texture_descriptor.size.width == 0 {
            1int
        } else {
            texture_descriptor.size.width as int
        }) * b + COPY_BYTES_PER_ROW_ALIGNMENT <= usize::MAX,
        spec_bytes_per_channel(texture_descriptor.format) is Some,
    ensures
        spec_level_dimensions(r, *texture_descriptor, level),
{
    let d = texture_descriptor;
    let bytes_per_channel = format_bytes_per_channel(&d.format);
    let e = get_mip_extent(&d.size, level);
    proof {
        lemma_mip_dim_bounded(d.size.width, level);
        lemma_mip_dim_bounded(d.size.height, level);
        lemma_mul_inequality(
            e.width as int,
            if d.size.width == 0 {
                1int
            } else {
                d.size.width as int
            },
            bytes_per_channel as int,
        );
    }
    MipBufferDimensions::new(e.width as usize, e.height as usize, bytes_per_channel)
}

/// Computes the buffer dimensions of every mip level of `d`, level 0
/// first, or reports `UnknownFormat` for a format without a known byte
/// layout.  These are the layouts the readback pipeline allocates and
/// decodes with.
pub fn readback_dimensions(texture_descriptor: &TextureDescriptor) -> (r: Result<
    Vec<MipBufferDimensions>,
    Error,
>)
    requires
        spec_bytes_per_channel(texture_descriptor.format) matches Some(b) ==> (if texture_descriptor.size.width == 0 {
            1int
        } else {
            texture_descriptor.size.width as int
        }) * b + COPY_BYTES_PER_ROW_ALIGNMENT <= usize::MAX,
    ensures
        match r {
            Ok(v) => {
                &&& spec_bytes_per_channel(texture_descriptor.format) is Some
                &&& v@.len() == texture_descriptor.mip_level_count
                &&& forall|i: int|
                    0 <= i < v@.len() ==> spec_level_dimensions(
                        v@[i],
                        *texture_descriptor,
                        i as u32,
                    )
            },
            Err(e) => {
                &&& e == Error::UnknownFormat(texture_descriptor.format)
                &&& spec_bytes_per_channel(texture_descriptor.format) is None
            },
        },
{
    let d = texture_descriptor;
    if try_bytes_per_channel(&d.format).is_none() {
        return Err(Error::UnknownFormat(d.format));
    }
    let count = d.mip_level_count;
    let mut dims: Vec<MipBufferDimensions> = Vec::new();
    let mut level: u32 = 0;
    while level < count
        invariant
            level <= count,
            dims@.len() == level,
            spec_bytes_per_channel(d.format) matches Some(b) ==> (if d.size.width == 0 {
                1int
            } else {
                d.size.width as int
            }) * b + COPY_BYTES_PER_ROW_ALIGNMENT <= usize::MAX,
            spec_bytes_per_channel(d.format) is Some,
            forall|i: int| 0 <= i < level ==> spec_level_dimensions(dims@[i], *d, i as u32),
        decreases count - level,
    {
        let m = mip_buffer_dimensions(d, level);
        dims.push(m);
        level += 1;
    }
    Ok(dims)
}

/// The dense bytes recovered from a row-padded buffer: `h` rows of `up`
/// bytes each, row `y` starting at offset `y * pp` of the padded buffer.
pub open spec fn spec_dense_rows(padded: Seq<u8>, up: int, pp: int, h: int) -> Seq<u8> {
    Seq::new((h * up) as nat, |i: int| padded[(i / up) * pp + i % up])
}

/// Copies the dense bytes of every row out of a row-padded buffer,
/// discarding each row's alignment padding.
pub fn dense_from_padded(padded: &[u8], dimensions: &MipBufferDimensions) -> (r: Vec<u8>)
    requires
        dimensions.unpadded_bytes_per_row >= 1,
        dimensions.unpadded_bytes_per_row <= dimensions.padded_bytes_per_row,
        dimensions.height * dimensions.padded_bytes_per_row <= padded@.len(),
    ensures
        r@ == spec_dense_rows(
            padded@,
            dimensions.unpadded_bytes_per_row as int,
            dimensions.padded_bytes_per_row as int,
            dimensions.height as int,
        ),
{
    let h = dimensions.height;
    let up = dimensions.unpadded_bytes_per_row;
    let pp = dimensions.padded_bytes_per_row;
    let ghost dense = spec_dense_rows(padded@, up as int, pp as int, h as int);
    let padded_len = padded.len();
    let mut exact: Vec<u8> = Vec::new();
    let mut y: usize = 0;
    while y < h
        invariant
            y <= h,
            1 <= up <= pp,
            padded_len == padded@.len(),
            h * pp <= padded_len,
            exact@.len() == y * up,
            forall|j: int|
                0 <= j < exact@.len() ==> exact@[j] == padded@[
                    (j / (up as int)) * (pp as int) + j % (up as int)
                ],
        decreases h - y,
    {
        proof {
            lemma_mul_inequality(y as int + 1, h as int, pp as int);
            lemma_mul_is_distributive_add_other_way(pp as int, y as int, 1);
            lemma_mul_inequality(y as int + 1, h as int, up as int);
            lemma_mul_is_distributive_add_other_way(up as int, y as int, 1);
        }
        let row_beg = y * pp;
        let mut k: usize = 0;
        while k < up
            invariant
                k <= up,
                y < h,
                1 <= up <= pp,
                padded_len == padded@.len(),
                h * pp <= padded_len,
                row_beg == y * pp,
                (y + 1) * pp <= h * pp,
                (y + 1) * pp == y * pp + pp,
                (y + 1) * up == y * up + up,
                exact@.len() == y * up + k,
                forall|j: int|
                    0 <= j < exact@.len() ==> exact@[j] == padded@[
                        (j / (up as int)) * (pp as int) + j % (up as int)
                    ],
            decreases up - k,
        {
            exact.push(padded[row_beg + k]);
            proof {
                vstd::arithmetic::div_mod::lemma_fundamental_div_mod_converse(
                    y * up + k,
                    up as int,
                    y as int,
                    k as int,
                );
            }
            k += 1;
        }
        y += 1;
    }
    proof {
        assert(exact@ =~= dense);
    }
    exact
}

/// Decoding padded rows is the inverse of laying dense rows out with
/// padding: whenever a padded buffer agrees with a dense buffer on the
/// first `up` bytes of each of `h` rows of stride `pp`, recovering the
/// dense bytes from it returns exactly that dense buffer.  Reading back an
/// untouched level therefore returns the bytes that were uploaded.
pub proof fn lemma_dense_roundtrip(dense: Seq<u8>, padded: Seq<u8>, up: int, pp: int, h: int)
    requires
        0 < up <= pp,
        0 <= h,
        dense.len() == h * up,
        padded.len() >= h * pp,
        forall|j: int|
            0 <= j < h * pp && j % pp < up ==> #[trigger] padded[j] == dense[(j / pp) * up + j
                % pp],
    ensures
        spec_dense_rows(padded, up, pp, h) == dense,
{
    let out = spec_dense_rows(padded, up, pp, h);
    assert forall|i: int| 0 <= i < h * up implies out[i] == dense[i] by {
        let y = i / up;
        let k = i % up;
        lemma_fundamental_div_mod(i, up);
        lemma_mod_bound(i, up);
        assert(i < up * h) by {
            vstd::arithmetic::mul::lemma_mul_is_commutative(up, h);
        }
        lemma_multiply_divide_lt(i, up, h);
        let j = y * pp + k;
        lemma_mul_inequality(y + 1, h, pp);
        lemma_mul_is_distributive_add_other_way(pp, y, 1);
        lemma_mul_inequality(y + 1, h, up);
        lemma_mul_is_distributive_add_other_way(up, y, 1);
        vstd::arithmetic::div_mod::lemma_fundamental_div_mod_converse(j, pp, y, k);
    }
    assert(out =~= dense);
}

} // verus!
