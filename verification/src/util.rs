//! Test-pattern helpers: checkerboard images used to exercise mipmap
//! generation end to end.

use vstd::prelude::*;

verus! {

/// The value of the checkerboard cell at column `x`, row `y`, for squares
/// of `n` pixels: alternating 0 and 255.
pub open spec fn spec_checker_value(x: int, y: int, n: int) -> u8
    recommends
        n >= 1,
{
    (((x / n + y / n) % 2) * 255) as u8
}

/// The single-channel checkerboard buffer: one byte per pixel, pixel `id`
/// at column `id % width`, with rows advancing every `height` pixels.
pub open spec fn spec_checkerboard_r8(width: u32, height: u32, n: u32) -> Seq<u8> {
    Seq::new(
        (width * height) as nat,
        |id: int| spec_checker_value(id % (width as int), id / (height as int), n as int),
    )
}

/// The four-channel checkerboard buffer: four bytes per pixel, the cell
/// value in the three color channels and 255 in the alpha channel.
pub open spec fn spec_checkerboard_rgba8(width: u32, height: u32, n: u32) -> Seq<u8> {
    let pixels = (width * height) as int;
    Seq::new(
        (4 * pixels) as nat,
        |i: int|
            if i % 4 == 3 {
                255u8
            } else {
                spec_checker_value((i / 4) % (width as int), (i / 4) / (height as int), n as int)
            },
    )
}

/// Fills a `width` by `height` single-channel image with a checkerboard of
/// `n`-pixel squares, alternating 0 and 255.
pub fn checkerboard_r8(width: u32, height: u32, n: u32) -> (r: Vec<u8>)
    requires
        n >= 1,
        width * height <= u32::MAX,
    ensures
        r@ == spec_checkerboard_r8(width, height, n),
{
    let total = width * height;
    let ghost target = spec_checkerboard_r8(width, height, n);
    let mut v: Vec<u8> = Vec::new();
    let mut id: u32 = 0;
    while id < total
        invariant
            id <= total,
            total == width * height,
            total > 0 ==> width >= 1 && height >= 1,
            n >= 1,
            v@ == target.take(id as int),
            target == spec_checkerboard_r8(width, height, n),
        decreases total - id,
    {
        let x = (id % width) as u64;
        let y = (id / height) as u64;
        let val = (((x / (n as u64) + y / (n as u64)) % 2) * 255) as u8;
        v.push(val);
        proof {
            assert(target.take(id + 1) =~= target.take(id as int).push(target[id as int]));
        }
        id += 1;
    }
    proof {
        assert(v@ =~= target);
    }
    v
}

/// Fills a `width` by `height` four-channel image with a checkerboard of
/// `n`-pixel squares: 0 or 255 in the color channels, 255 alpha.
pub fn checkerboard_rgba8(width: u32, height: u32, n: u32) -> (r: Vec<u8>)
    requires
        n >= 1,
        width * height <= u32::MAX,
        4 * (width * height) <= usize::MAX,
    ensures
        r@ == spec_checkerboard_rgba8(width, height, n),
{
    let total = width * height;
    let ghost target = spec_checkerboard_rgba8(width, height, n);
    let mut v: Vec<u8> = Vec::new();
    let mut id: u32 = 0;
    while id < total
        invariant
            id <= total,
            total == width * height,
            total > 0 ==> width >= 1 && height >= 1,
            n >= 1,
            v@.len() == 4 * id,
            v@ == target.take(4 * id as int),
            target == spec_checkerboard_rgba8(width, height, n),
        decreases total - id,
    {
        let x = (id % width) as u64;
        let y = (id / height) as u64;
        let val = (((x / (n as u64) + y / (n as u64)) % 2) * 255) as u8;
        v.push(val);
        v.push(val);
        v.push(val);
        v.push(255);
        proof {
            let i = id as int;
            assert(target[4 * i] == val && target[4 * i + 1] == val && target[4 * i + 2] == val
                && target[4 * i + 3] == 255u8) by {
                assert((4 * i) % 4 == 0 && (4 * i) / 4 == i) by {
                    vstd::arithmetic::div_mod::lemma_fundamental_div_mod_converse(4 * i, 4, i, 0);
                }
                assert((4 * i + 1) % 4 == 1 && (4 * i + 1) / 4 == i) by {
                    vstd::arithmetic::div_mod::lemma_fundamental_div_mod_converse(
                        4 * i + 1,
                        4,
                        i,
                        1,
                    );
                }
                assert((4 * i + 2) % 4 == 2 && (4 * i + 2) / 4 == i) by {
                    vstd::arithmetic::div_mod::lemma_fundamental_div_mod_converse(
                        4 * i + 2,
                        4,
                        i,
                        2,
                    );
                }
                assert((4 * i + 3) % 4 == 3) by {
                    vstd::arithmetic::div_mod::lemma_fundamental_div_mod_converse(
                        4 * i + 3,
                        4,
                        i,
                        3,
                    );
                }
            }
            assert(target.take(4 * (i + 1)) =~= target.take(4 * i).push(target[4 * i]).push(
                target[4 * i + 1],
            ).push(target[4 * i + 2]).push(target[4 * i + 3]));
        }
        id += 1;
    }
    proof {
        assert(v@ =~= target);
    }
    v
}

} // verus!
