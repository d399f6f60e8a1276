use vstd::prelude::*;
use vstd::arithmetic::div_mod::{lemma_fundamental_div_mod, lemma_fundamental_div_mod_converse};
use vstd::arithmetic::mul::{lemma_mul_inequality, lemma_mul_nonnegative};

verus! {

/// Whether byte `i` of an image whose rows are `stride` bytes long belongs to
/// the pixels `x0 <= x < x1`, `y0 <= y < y1` (four bytes per pixel).
pub open spec fn in_rect(i: int, stride: int, x0: int, y0: int, x1: int, y1: int) -> bool {
    &&& y0 <= i / stride < y1
    &&& 4 * x0 <= i % stride < 4 * x1
}

/// Whether byte `i` has been copied once rows `y0..y` are done and `k`
/// bytes of row `y` are.
spec fn copied_so_far(i: int, stride: int, x0: int, y0: int, x1: int, y: int, k: int) -> bool {
    ||| (y0 <= i / stride < y && 4 * x0 <= i % stride < 4 * x1)
    ||| (i / stride == y && 4 * x0 <= i % stride < 4 * x0 + k)
}

/// Byte `c` of pixel (`x`, `y`), in an image whose rows are `4 * width`
/// bytes, is byte `y * 4 * width + 4 * x + c`; it belongs to the rectangle
/// `x0 <= x < x1`, `y0 <= y < y1` exactly when the pixel does.
pub proof fn law_pixel_byte_in_rect(width: int, x0: int, y0: int, x1: int, y1: int, x: int, y: int, c: int)
    requires
        width > 0,
        0 <= x < width,
        0 <= y,
        0 <= c < 4,
    ensures
        in_rect(y * (4 * width) + 4 * x + c, 4 * width, x0, y0, x1, y1) <==> (x0 <= x < x1 && y0 <= y < y1),
{
    lemma_fundamental_div_mod_converse(y * (4 * width) + 4 * x + c, 4 * width, y, 4 * x + c);
}

/// Copies the pixels `x0 <= x < x1`, `y0 <= y < y1` of `screenshot` into
/// `pixmap`, two images of the same row length, `width` pixels; every other
/// byte of `pixmap` is left as it was. An empty rectangle copies nothing.
/// The rectangle's right edge is at most `width` (the caller clamps it).
pub fn undim_rect(pixmap: &mut Vec<u8>, screenshot: &[u8], width: usize, x0: usize, y0: usize, x1: usize, y1: usize)
    requires
        x1 <= width,
        4 * width <= usize::MAX,
        x1 <= x0 || y1 <= y0 || ((y1 - 1) * (4 * width) + 4 * x1 <= old(pixmap)@.len() && (y1 - 1) * (4
            * width) + 4 * x1 <= screenshot@.len()),
    ensures
        final(pixmap)@.len() == old(pixmap)@.len(),
        forall|i: int|
            0 <= i < old(pixmap)@.len() ==> #[trigger] final(pixmap)@[i] == if x0 < x1 && y0 < y1 && in_rect(
                i,
                4 * width as int,
                x0 as int,
                y0 as int,
                x1 as int,
                y1 as int,
            ) {
                screenshot@[i]
            } else {
                old(pixmap)@[i]
            },
        forall|x: int, y: int, c: int|
            x0 <= x < x1 && y0 <= y < y1 && 0 <= c < 4 ==> #[trigger] final(pixmap)@[y * (4 * width) + 4 * x
                + c] == screenshot@[y * (4 * width) + 4 * x + c],
{
    if x1 <= x0 || y1 <= y0 {
        return;
    }
    let plen = pixmap.len();
    let ghost orig = pixmap@;
    let ghost stride = 4 * width as int;
    let stride_bytes = width * 4;
    let row_bytes = (x1 - x0) * 4;
    let mut y: usize = y0;
    while y < y1
        invariant
            x0 < x1 <= width,
            y0 <= y <= y1,
            stride == 4 * width,
            stride_bytes == stride,
            row_bytes == 4 * (x1 - x0),
            (y1 - 1) * stride + 4 * x1 <= orig.len(),
            (y1 - 1) * stride + 4 * x1 <= screenshot@.len(),
            pixmap@.len() == orig.len(),
            plen == orig.len(),
            forall|i: int|
                0 <= i < orig.len() ==> #[trigger] pixmap@[i] == if copied_so_far(
                    i,
                    stride,
                    x0 as int,
                    y0 as int,
                    x1 as int,
                    y as int,
                    0,
                ) {
                    screenshot@[i]
                } else {
                    orig[i]
                },
        decreases y1 - y,
    {
        proof {
            lemma_mul_inequality(y as int, y1 - 1, stride);
            lemma_mul_nonnegative(y as int, stride);
        }
        let row_start = y * stride_bytes + x0 * 4;
        let mut k: usize = 0;
        while k < row_bytes
            invariant
                x0 < x1 <= width,
                y0 <= y < y1,
                stride == 4 * width,
                row_bytes == 4 * (x1 - x0),
                row_start == y * stride + 4 * x0,
                row_start + row_bytes <= orig.len(),
                row_start + row_bytes <= screenshot@.len(),
                k <= row_bytes,
                pixmap@.len() == orig.len(),
                plen == orig.len(),
                forall|i: int|
                    0 <= i < orig.len() ==> #[trigger] pixmap@[i] == if copied_so_far(
                        i,
                        stride,
                        x0 as int,
                        y0 as int,
                        x1 as int,
                        y as int,
                        k as int,
                    ) {
                        screenshot@[i]
                    } else {
                        orig[i]
                    },
            decreases row_bytes - k,
        {
            let j = row_start + k;
            let ghost before = pixmap@;
            pixmap.set(j, screenshot[j]);
            proof {
                lemma_fundamental_div_mod_converse(j as int, stride, y as int, 4 * x0 + k);
                assert forall|i: int| 0 <= i < orig.len() implies #[trigger] pixmap@[i] == if copied_so_far(
                    i,
                    stride,
                    x0 as int,
                    y0 as int,
                    x1 as int,
                    y as int,
                    k + 1,
                ) {
                    screenshot@[i]
                } else {
                    orig[i]
                } by {
                    if i != j {
                        lemma_fundamental_div_mod(i, stride);
                        lemma_fundamental_div_mod(j as int, stride);
                        assert(before[i] == pixmap@[i]);
                    }
                }
            }
            k += 1;
        }
        proof {
            assert forall|i: int| 0 <= i < orig.len() implies copied_so_far(
                i,
                stride,
                x0 as int,
                y0 as int,
                x1 as int,
                y as int,
                row_bytes as int,
            ) == copied_so_far(i, stride, x0 as int, y0 as int, x1 as int, y + 1, 0) by {}
        }
        y += 1;
    }
    proof {
        assert forall|i: int| 0 <= i < orig.len() implies copied_so_far(
            i,
            stride,
            x0 as int,
            y0 as int,
            x1 as int,
            y1 as int,
            0,
        ) == in_rect(i, stride, x0 as int, y0 as int, x1 as int, y1 as int) by {}
        assert forall|x: int, y: int, c: int|
            x0 <= x < x1 && y0 <= y < y1 && 0 <= c < 4 implies #[trigger] pixmap@[y * (4 * width) + 4 * x + c]
            == screenshot@[y * (4 * width) + 4 * x + c] by {
            law_pixel_byte_in_rect(width as int, x0 as int, y0 as int, x1 as int, y1 as int, x, y, c);
            lemma_mul_inequality(y, y1 - 1, stride);
            lemma_mul_nonnegative(y, stride);
            let i = y * (4 * width) + 4 * x + c;
            assert(0 <= i < orig.len());
        }
    }
}

} // verus!
