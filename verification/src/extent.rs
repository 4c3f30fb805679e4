//! The mip extent calculator: the size of an image at a given mip level.

use vstd::arithmetic::div_mod::{lemma_basic_div, lemma_div_denominator};
use vstd::arithmetic::power2::{lemma2_to64, lemma_pow2_strictly_increases, pow2};
use vstd::bits::lemma_u32_shr_is_div;
use vstd::prelude::*;

verus! {

/// The size of a texture, or of one mip level of it.
#[derive(Clone, Copy, Debug, PartialEq, Eq, Structural)]
pub struct Extent3d {
    pub width: u32,
    pub height: u32,
    pub depth: u32,
}

/// One axis of an extent at mip level `level`: the base value divided by
/// `2^level` (rounding down), floored at 1.
pub open spec fn spec_mip_dim(base: u32, level: u32) -> u32 {
    let d = (base as nat) / pow2(level as nat);
    if d == 0 {
        1u32
    } else {
        d as u32
    }
}

/// The extent of mip level `level` for a texture whose base extent is
/// `extent`: every axis halved `level` times, floored at 1.
pub open spec fn spec_mip_extent(extent: Extent3d, level: u32) -> Extent3d {
    Extent3d {
        width: spec_mip_dim(extent.width, level),
        height: spec_mip_dim(extent.height, level),
        depth: spec_mip_dim(extent.depth, level),
    }
}

proof fn lemma_pow2_exceeds_u32(level: u32)
    requires
        level >= 32,
    ensures
        pow2(level as nat) > u32::MAX,
{
    lemma2_to64();
    if level > 32 {
        lemma_pow2_strictly_increases(32, level as nat);
    }
}

/// One axis of `spec_mip_dim`, computed with a right shift.
fn mip_dim(base: u32, level: u32) -> (r: u32)
    ensures
        r == spec_mip_dim(base, level),
{
    let d: u32 = if level >= 32 {
        proof {
            lemma_pow2_exceeds_u32(level);
            lemma_basic_div(base as int, pow2(level as nat) as int);
        }
        0u32
    } else {
        proof {
            lemma_u32_shr_is_div(base, level);
        }
        base >> level
    };
    if d == 0 {
        1
    } else {
        d
    }
}

/// Tests whether `x` is a power of two; zero is not one.
pub fn is_power_of_two(x: u32) -> (r: bool)
    ensures
        r == vstd::arithmetic::power2::is_pow2(x as int),
{
    proof {
        reveal(vstd::arithmetic::power2::is_pow2);
    }
    if x == 0 {
        return false;
    }
    let mut v: u32 = x;
    while v % 2 == 0
        invariant
            v >= 1,
            vstd::arithmetic::power2::is_pow2(x as int) == vstd::arithmetic::power2::is_pow2(
                v as int,
            ),
        decreases v,
    {
        proof {
            reveal(vstd::arithmetic::power2::is_pow2);
        }
        v = v / 2;
    }
    proof {
        reveal(vstd::arithmetic::power2::is_pow2);
    }
    v == 1
}

/// Returns the extent of mip level `level` of a texture with base extent
/// `extent`.  Total: any level of any extent has a well-defined size.
pub fn get_mip_extent(extent: &Extent3d, level: u32) -> (r: Extent3d)
    ensures
        r == spec_mip_extent(*extent, level),
{
    Extent3d {
        width: mip_dim(extent.width, level),
        height: mip_dim(extent.height, level),
        depth: mip_dim(extent.depth, level),
    }
}

proof fn lemma_mip_dim_compose(base: u32, level: u32)
    requires
        1 <= level,
    ensures
        spec_mip_dim(spec_mip_dim(base, 1), (level - 1) as u32) == spec_mip_dim(base, level),
{
    lemma2_to64();
    assert(pow2(1) == 2);
    let l1 = (level - 1) as u32;
    if base < 2 {
        // The first halving already floors the axis at 1, and 1 stays 1.
        assert((base as nat) / pow2(1) == 0) by {
            lemma_basic_div(base as int, 2);
        }
        assert(spec_mip_dim(base, 1) == 1u32);
        if l1 == 0 {
            assert(pow2(0) == 1);
        } else {
            assert(pow2(l1 as nat) >= 2) by {
                lemma_pow2_strictly_increases(0, l1 as nat);
            }
            lemma_basic_div(1int, pow2(l1 as nat) as int);
        }
        assert(spec_mip_dim(1u32, l1) == 1u32);
        assert(pow2(level as nat) >= 2) by {
            if level > 1 {
                lemma_pow2_strictly_increases(1, level as nat);
            }
        }
        lemma_basic_div(base as int, pow2(level as nat) as int);
        assert(spec_mip_dim(base, level) == 1u32);
    } else {
        let h = (base as nat) / 2;
        assert(h >= 1) by {
            lemma_div_denominator(base as int, 1, 2);
        }
        assert(spec_mip_dim(base, 1) == h as u32);
        assert((h as int) / (pow2(l1 as nat) as int) == (base as int) / (2 * pow2(l1 as nat) as int))
            by {
            vstd::arithmetic::power2::lemma_pow2_pos(l1 as nat);
            lemma_div_denominator(base as int, 2, pow2(l1 as nat) as int);
        }
        assert(2 * pow2(l1 as nat) == pow2(level as nat)) by {
            vstd::arithmetic::power2::lemma_pow2_adds(1, l1 as nat);
        }
    }
}

/// Halving composes: taking the extent one level down and then `level - 1`
/// further levels lands on the extent at `level` directly.  Every backend and
/// the readback path may therefore compute level extents independently and
/// agree.
pub proof fn lemma_mip_extent_compose(extent: Extent3d, level: u32)
    requires
        1 <= level,
    ensures
        spec_mip_extent(spec_mip_extent(extent, 1), (level - 1) as u32) == spec_mip_extent(
            extent,
            level,
        ),
{
    lemma_mip_dim_compose(extent.width, level);
    lemma_mip_dim_compose(extent.height, level);
    lemma_mip_dim_compose(extent.depth, level);
}

} // verus!
