use vstd::prelude::*;
use vstd::arithmetic::div_mod::lemma_fundamental_div_mod_converse;

use crate::commands::RenderError;

verus! {

/// A fresh single-channel canvas: `width * height` grayscale pixels, all
/// full white, row-major. Fails with `Allocation` exactly when the pixel
/// count cannot be represented in a `usize`.
#[verifier::loop_isolation(false)]
pub fn white_canvas(width: i32, height: i32) -> (r: Result<Vec<u8>, RenderError>)
    requires
        width > 0,
        height > 0,
    ensures
        match r {
            Ok(v) => v@.len() == width as int * height as int && (forall|i: int|
                0 <= i < v@.len() ==> v@[i] == 255u8),
            Err(e) => e == RenderError::Allocation && width as int * height as int > usize::MAX
                as int,
        },
{
    let n = match (width as usize).checked_mul(height as usize) {
        Option::Some(n) => n,
        Option::None => {
            return Result::Err(RenderError::Allocation);
        },
    };
    let mut v: Vec<u8> = Vec::new();
    let mut i: usize = 0;
    while i < n
        invariant
            i <= n,
            v@.len() == i,
            forall|j: int| 0 <= j < i ==> v@[j] == 255u8,
        decreases n - i,
    {
        v.push(255u8);
        i += 1;
    }
    Result::Ok(v)
}

/// The pixels of a `width`-wide, `height`-tall row-major canvas after a
/// quarter turn clockwise: the result is `height` wide and `width` tall,
/// and its pixel in column `c`, row `r` (element `r * height + c`) is the
/// source pixel in column `r`, row `height - 1 - c`. This is the blit under
/// a translation by `(height, 0)` composed with a 90 degree rotation about
/// the origin.
pub open spec fn rotated(src: Seq<u8>, width: int, height: int) -> Seq<u8> {
    Seq::new(
        (width * height) as nat,
        |k: int| src[(height - 1 - (k % height)) * width + (k / height)],
    )
}

/// Element `r * height + c` of the rotated canvas is the source pixel in
/// column `r`, row `height - 1 - c`.
pub proof fn lemma_rotated_pixel(src: Seq<u8>, width: int, height: int, c: int, r: int)
    requires
        0 <= c < height,
        0 <= r < width,
    ensures
        rotated(src, width, height)[r * height + c] == src[(height - 1 - c) * width + r],
{
    let k = r * height + c;
    lemma_fundamental_div_mod_converse(k, height, r, c);
    assert(0 <= k < width * height) by (nonlinear_arith)
        requires
            0 <= c < height,
            0 <= r < width,
            k == r * height + c,
    ;
}

/// The Kindle orientation pass on the raw buffer: the canvas rotated a
/// quarter turn clockwise, so the output's width is the input's height and
/// the output's height is the input's width.
#[verifier::loop_isolation(false)]
pub fn rotate_clockwise(pixels: &Vec<u8>, width: usize, height: usize) -> (r: Vec<u8>)
    requires
        width > 0,
        height > 0,
        pixels@.len() == width as int * height as int,
    ensures
        r@ == rotated(pixels@, width as int, height as int),
{
    let ghost target = rotated(pixels@, width as int, height as int);
    let total: usize = pixels.len();
    proof {
        assert(total == pixels@.len());
        assert(width * height <= usize::MAX);
    }
    let mut out: Vec<u8> = Vec::new();
    let mut row: usize = 0;
    while row < width
        invariant
            row <= width,
            out@.len() == row * height,
            out@ =~= target.take((row * height) as int),
        decreases width - row,
    {
        let mut col: usize = 0;
        while col < height
            invariant
                col <= height,
                out@.len() == row * height + col,
                out@ =~= target.take((row * height + col) as int),
            decreases height - col,
        {
            proof {
                lemma_rotated_pixel(pixels@, width as int, height as int, col as int, row as int);
                assert(row * height + col < width * height) by (nonlinear_arith)
                    requires
                        0 <= col < height,
                        0 <= row < width,
                ;
                assert((height - 1 - col) * width + row < width * height) by (nonlinear_arith)
                    requires
                        0 <= col < height,
                        0 <= row < width,
                ;
            }
            let src_index = (height - 1 - col) * width + row;
            out.push(pixels[src_index]);
            col += 1;
            proof {
                assert(out@ =~= target.take((row * height + col) as int));
            }
        }
        row += 1;
        proof {
            assert(row * height == (row - 1) * height + height) by (nonlinear_arith);
        }
    }
    proof {
        assert(target.take((width * height) as int) =~= target);
    }
    out
}

} // verus!
