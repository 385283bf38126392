//! The pixel grid of a frame, walked row by row from the top-left pixel.
use vstd::prelude::*;
use vstd::arithmetic::div_mod::lemma_fundamental_div_mod_converse;

verus! {

/// Column and row of the pixel that stands at `index` in row-major order.
pub open spec fn pixel_at(index: int, width: int) -> (int, int) {
    (index % width, index / width)
}

/// Number of pixels of a `width` by `height` frame, or `None` where that
/// number does not fit in `usize`.
pub fn pixel_count(width: u32, height: u32) -> (r: Option<usize>)
    ensures
        r.is_some() <==> width as int * height as int <= usize::MAX as int,
        r matches Some(n) ==> n as int == width as int * height as int,
{
    proof {
        assert(width as int * height as int <= u32::MAX as int * u32::MAX as int)
            by (nonlinear_arith);
    }
    let n: u64 = width as u64 * height as u64;
    if n <= usize::MAX as u64 {
        Some(n as usize)
    } else {
        None
    }
}

proof fn lemma_pixel_at(j: int, i: int, width: int)
    requires
        0 <= i < width,
        0 <= j,
    ensures
        pixel_at(j * width + i, width) == (i, j),
{
    lemma_fundamental_div_mod_converse(j * width + i, width, j, i);
}

/// Every pixel of the frame, row by row: the pixel at index `k` is in column
/// `k % width` and row `k / width`.
pub fn pixel_positions(width: u32, height: u32) -> (r: Vec<(u32, u32)>)
    requires
        width as int * height as int <= usize::MAX as int,
    ensures
        r@.len() == width as int * height as int,
        forall|k: int|
            0 <= k < r@.len() ==> (#[trigger] r@[k].0 as int, r@[k].1 as int) == pixel_at(
                k,
                width as int,
            ),
{
    let mut positions: Vec<(u32, u32)> = Vec::new();
    let mut j: u32 = 0;
    while j < height
        invariant
            j <= height,
            width as int * height as int <= usize::MAX as int,
            positions@.len() == j as int * width as int,
            forall|k: int|
                0 <= k < positions@.len() ==> (
                #[trigger] positions@[k].0 as int,
                positions@[k].1 as int,
            ) == pixel_at(k, width as int),
        decreases height - j,
    {
        let mut i: u32 = 0;
        while i < width
            invariant
                i <= width,
                j < height,
                width as int * height as int <= usize::MAX as int,
                positions@.len() == j as int * width as int + i as int,
                forall|k: int|
                    0 <= k < positions@.len() ==> (
                    #[trigger] positions@[k].0 as int,
                    positions@[k].1 as int,
                ) == pixel_at(k, width as int),
            decreases width - i,
        {
            proof {
                lemma_pixel_at(j as int, i as int, width as int);
                assert((j as int * width as int + i as int) < width as int * height as int)
                    by (nonlinear_arith)
                    requires
                        i < width,
                        j < height,
                ;
            }
            positions.push((i, j));
            i = i + 1;
        }
        proof {
            assert((j + 1) as int * width as int == j as int * width as int + width as int)
                by (nonlinear_arith);
        }
        j = j + 1;
    }
    proof {
        assert(height as int * width as int == width as int * height as int) by (nonlinear_arith);
    }
    positions
}

} // verus!
