use vstd::prelude::*;
use vstd::arithmetic::div_mod::{lemma_fundamental_div_mod, lemma_fundamental_div_mod_converse};
use vstd::arithmetic::mul::{lemma_mul_inequality, lemma_mul_is_commutative, lemma_mul_is_distributive_add, lemma_mul_nonnegative};

verus! {

/// A captured image: `width * height` pixels stored row by row, four bytes
/// (red, green, blue, alpha) per pixel.
pub struct Screenshot {
    pub width: u32,
    pub height: u32,
    pub rgba: Vec<u8>,
}

impl Screenshot {
    /// The pixel buffer holds exactly four bytes for each of the
    /// `width * height` pixels.
    pub open spec fn wf(&self) -> bool {
        self.rgba@.len() == 4 * self.width * self.height
    }
}

/// Every row that a crop of `height` rows of `4 * width` bytes, starting at
/// byte `4 * x` of row `y`, reads lies inside a buffer of `len` bytes whose
/// rows are `4 * src_width` bytes apart.
pub open spec fn crop_fits(len: int, src_width: int, x: int, y: int, width: int, height: int) -> bool {
    height == 0 || (y + height - 1) * (4 * src_width) + 4 * x + 4 * width <= len
}

/// The bytes of the `width` x `height` rectangle at (`x`, `y`) of an image
/// whose rows are `src_width` pixels wide, row after row.
pub open spec fn cropped(src: Seq<u8>, src_width: int, x: int, y: int, width: int, height: int) -> Seq<u8> {
    Seq::new(
        (4 * width * height) as nat,
        |i: int| src[(y + i / (4 * width)) * (4 * src_width) + 4 * x + i % (4 * width)],
    )
}

proof fn lemma_cropped_step(src: Seq<u8>, src_width: int, x: int, y: int, width: int, row: int)
    requires
        src_width >= 0,
        x >= 0,
        y >= 0,
        width >= 0,
        row >= 0,
        (y + row) * (4 * src_width) + 4 * x + 4 * width <= src.len(),
    ensures
        cropped(src, src_width, x, y, width, row + 1) =~= cropped(src, src_width, x, y, width, row)
            + src.subrange(
            (y + row) * (4 * src_width) + 4 * x,
            (y + row) * (4 * src_width) + 4 * x + 4 * width,
        ),
{
    let rb = 4 * width;
    let off = (y + row) * (4 * src_width) + 4 * x;
    lemma_mul_is_distributive_add(rb, row, 1);
    assert(rb * 1 == rb);
    lemma_mul_nonnegative(rb, row);
    lemma_mul_nonnegative(y + row, 4 * src_width);
    let a = cropped(src, src_width, x, y, width, row + 1);
    let b = cropped(src, src_width, x, y, width, row) + src.subrange(off, off + rb);
    assert(a.len() == b.len());
    assert forall|i: int| 0 <= i < a.len() implies a[i] == b[i] by {
        if i >= rb * row {
            lemma_mul_is_commutative(rb, row);
            lemma_fundamental_div_mod_converse(i, rb, row, i - rb * row);
        }
    }
}

proof fn lemma_row_offset_bound(src_width: int, x: int, y: int, width: int, height: int, row: int)
    requires
        src_width >= 0,
        x >= 0,
        width >= 0,
        y >= 0,
        0 <= row < height,
    ensures
        (y + row) * (4 * src_width) + 4 * x + 4 * width <= (y + height - 1) * (4 * src_width) + 4 * x
            + 4 * width,
{
    lemma_mul_inequality(y + row, y + height - 1, 4 * src_width);
}

/// Whether [`crop`] may cut this rectangle out of `screenshot`: every row
/// read lies inside the pixels and all sizes fit in memory.
pub fn can_crop(screenshot: &Screenshot, x: u32, y: u32, width: u32, height: u32) -> (r: bool)
    ensures
        r == (4 * screenshot.width <= usize::MAX && 4 * width <= usize::MAX && 4 * width * height
            <= usize::MAX && (height == 0 || y + height - 1 <= usize::MAX) && crop_fits(
            screenshot.rgba@.len() as int,
            screenshot.width as int,
            x as int,
            y as int,
            width as int,
            height as int,
        )),
{
    let max = usize::MAX as u128;
    let sw = screenshot.width as u128;
    let w = width as u128;
    let h = height as u128;
    let n = screenshot.rgba.len() as u128;
    proof {
        vstd::arithmetic::mul::lemma_mul_upper_bound(w as int, 0x1_0000_0000, h as int, 0x1_0000_0000);
        vstd::arithmetic::mul::lemma_mul_is_associative(4, w as int, h as int);
    }
    if 4 * sw > max || 4 * w > max || 4 * (w * h) > max {
        return false;
    }
    if h == 0 {
        return true;
    }
    let last = y as u128 + h - 1;
    if last > max {
        return false;
    }
    proof {
        vstd::arithmetic::mul::lemma_mul_upper_bound(last as int, 0x2_0000_0000, 4 * sw as int, 0x4_0000_0000);
    }
    last * (4 * sw) + 4 * (x as u128) + 4 * w <= n
}

/// Cuts the `width` x `height` rectangle whose top-left pixel is (`x`, `y`)
/// out of `screenshot`.
///
/// The rows are read with the source's own row length, `4 * screenshot.width`
/// bytes; every byte read must lie inside the source buffer.
pub fn crop(screenshot: &Screenshot, x: u32, y: u32, width: u32, height: u32) -> (out: Screenshot)
    requires
        4 * screenshot.width <= usize::MAX,
        4 * width <= usize::MAX,
        4 * width * height <= usize::MAX,
        height == 0 || y + height - 1 <= usize::MAX,
        crop_fits(screenshot.rgba@.len() as int, screenshot.width as int, x as int, y as int, width as int, height as int),
    ensures
        out.width == width,
        out.height == height,
        out.rgba@ == cropped(screenshot.rgba@, screenshot.width as int, x as int, y as int, width as int, height as int),
        out.wf(),
{
    let ghost src = screenshot.rgba@;
    let ghost sw = screenshot.width as int;
    let src_stride = screenshot.width as usize * 4;
    let row_bytes = width as usize * 4;
    let len = screenshot.rgba.len();
    let mut rgba: Vec<u8> = Vec::new();
    let mut row: usize = 0;
    proof {
        assert(cropped(src, sw, x as int, y as int, width as int, 0) =~= Seq::<u8>::empty());
    }
    while row < height as usize
        invariant
            row <= height,
            src == screenshot.rgba@,
            len == src.len(),
            sw == screenshot.width,
            src_stride == 4 * sw,
            row_bytes == 4 * width,
            crop_fits(src.len() as int, sw, x as int, y as int, width as int, height as int),
            height == 0 || y + height - 1 <= usize::MAX,
            rgba@ == cropped(src, sw, x as int, y as int, width as int, row as int),
        decreases height - row,
    {
        proof {
            lemma_row_offset_bound(sw, x as int, y as int, width as int, height as int, row as int);
            lemma_mul_nonnegative(y + row, 4 * sw);
        }
        let src_offset = (y as usize + row) * src_stride + x as usize * 4;
        let ghost before = rgba@;
        let mut k: usize = 0;
        while k < row_bytes
            invariant
                k <= row_bytes,
                src == screenshot.rgba@,
                row_bytes == 4 * width,
                src_offset + row_bytes <= src.len(),
                len == src.len(),
                rgba@ == before + src.subrange(src_offset as int, src_offset + k),
            decreases row_bytes - k,
        {
            rgba.push(screenshot.rgba[src_offset + k]);
            k += 1;
            proof {
                assert(rgba@ =~= before + src.subrange(src_offset as int, src_offset + k));
            }
        }
        proof {
            lemma_cropped_step(src, sw, x as int, y as int, width as int, row as int);
        }
        row += 1;
    }
    Screenshot { width, height, rgba }
}

/// Cropping a well-formed image to its own full size gives the image back.
pub proof fn law_crop_full(src: Seq<u8>, width: int, height: int)
    requires
        width >= 0,
        height >= 0,
        src.len() == 4 * width * height,
    ensures
        cropped(src, width, 0, 0, width, height) == src,
{
    let out = cropped(src, width, 0, 0, width, height);
    assert forall|i: int| 0 <= i < src.len() implies out[i] == src[i] by {
        assert(width > 0) by {
            if width == 0 {
                assert(4 * width * height == 0);
            }
        }
        lemma_fundamental_div_mod(i, 4 * width);
        lemma_mul_is_commutative(i / (4 * width), 4 * width);
    }
    assert(out =~= src);
}

/// Cropping a crop is one crop: the rectangle (`x2`, `y2`, `w2`, `h2`) of the
/// rectangle (`x1`, `y1`, `w1`, `h1`) is the rectangle at
/// (`x1 + x2`, `y1 + y2`) of the same size, when it lies inside the first.
pub proof fn law_crop_compose(
    src: Seq<u8>,
    src_width: int,
    x1: int,
    y1: int,
    w1: int,
    h1: int,
    x2: int,
    y2: int,
    w2: int,
    h2: int,
)
    requires
        src_width >= 0,
        x1 >= 0,
        y1 >= 0,
        w1 >= 0,
        h1 >= 0,
        x2 >= 0,
        y2 >= 0,
        w2 >= 0,
        h2 >= 0,
        x2 + w2 <= w1,
        y2 + h2 <= h1,
    ensures
        cropped(cropped(src, src_width, x1, y1, w1, h1), w1, x2, y2, w2, h2) == cropped(
            src,
            src_width,
            x1 + x2,
            y1 + y2,
            w2,
            h2,
        ),
{
    let inner = cropped(src, src_width, x1, y1, w1, h1);
    let lhs = cropped(inner, w1, x2, y2, w2, h2);
    let rhs = cropped(src, src_width, x1 + x2, y1 + y2, w2, h2);
    assert forall|i: int| 0 <= i < lhs.len() implies lhs[i] == rhs[i] by {
        assert(w2 > 0) by {
            if w2 == 0 {
                assert(4 * w2 * h2 == 0);
            }
        }
        let r = i / (4 * w2);
        let k = i % (4 * w2);
        lemma_fundamental_div_mod(i, 4 * w2);
        assert(r < h2) by {
            if r >= h2 {
                lemma_mul_inequality(h2, r, 4 * w2);
                lemma_mul_is_commutative(r, 4 * w2);
                lemma_mul_is_commutative(h2, 4 * w2);
            }
        }
        let j = (y2 + r) * (4 * w1) + 4 * x2 + k;
        lemma_fundamental_div_mod_converse(j, 4 * w1, y2 + r, 4 * x2 + k);
        assert(j < 4 * w1 * h1) by {
            lemma_mul_inequality(y2 + r + 1, h1, 4 * w1);
            lemma_mul_is_distributive_add(4 * w1, y2 + r, 1);
            lemma_mul_is_commutative(y2 + r, 4 * w1);
            lemma_mul_is_commutative(h1, 4 * w1);
            lemma_mul_is_commutative(y2 + r + 1, 4 * w1);
        }
        assert(0 <= j) by {
            lemma_mul_nonnegative(y2 + r, 4 * w1);
        }
    }
    assert(lhs =~= rhs);
}

proof fn lemma_rect_fits(sw: int, sh: int, x: int, y: int, w: int, h: int)
    requires
        0 <= x,
        0 <= y,
        0 <= w,
        0 <= h,
        x + w <= sw,
        y + h <= sh,
    ensures
        crop_fits(4 * sw * sh, sw, x, y, w, h),
        4 * w * h <= 4 * sw * sh,
        4 * w <= 4 * sw,
        sw > 0 ==> sh <= 4 * sw * sh,
{
    if h > 0 {
        assert((y + h - 1) * (4 * sw) <= (sh - 1) * (4 * sw)) by (nonlinear_arith)
            requires
                0 <= y + h - 1 <= sh - 1,
                0 <= sw,
        ;
        assert((sh - 1) * (4 * sw) + 4 * sw == 4 * sw * sh) by (nonlinear_arith);
    }
    assert(4 * w * h <= 4 * sw * sh) by (nonlinear_arith)
        requires
            0 <= w <= sw,
            0 <= h <= sh,
    ;
    assert(sw > 0 ==> sh <= 4 * sw * sh) by (nonlinear_arith)
        requires
            0 <= sh,
    ;
}

/// A rectangle inside a well-formed, non-empty image that fits in memory
/// meets every condition of [`crop`].
pub proof fn law_crop_inside_is_admissible(shot: Screenshot, x: u32, y: u32, width: u32, height: u32)
    requires
        shot.wf(),
        shot.width > 0,
        shot.height > 0,
        4 * shot.width * shot.height <= usize::MAX,
        x + width <= shot.width,
        y + height <= shot.height,
    ensures
        4 * shot.width <= usize::MAX,
        4 * width <= usize::MAX,
        4 * width * height <= usize::MAX,
        height == 0 || y + height - 1 <= usize::MAX,
        crop_fits(shot.rgba@.len() as int, shot.width as int, x as int, y as int, width as int, height as int),
{
    lemma_rect_fits(shot.width as int, shot.height as int, x as int, y as int, width as int, height as int);
    lemma_rect_fits(shot.width as int, shot.height as int, 0, 0, shot.width as int, 1);
}

/// Cropping a crop of an image is one crop of the image, and every crop
/// involved is admissible: for rectangles inside a well-formed image, the
/// second inside the first.
pub proof fn law_crop_of_crop(shot: Screenshot, x1: u32, y1: u32, w1: u32, h1: u32, x2: u32, y2: u32, w2: u32, h2: u32)
    requires
        shot.wf(),
        x1 + w1 <= shot.width,
        y1 + h1 <= shot.height,
        x2 + w2 <= w1,
        y2 + h2 <= h1,
    ensures
        crop_fits(shot.rgba@.len() as int, shot.width as int, x1 as int, y1 as int, w1 as int, h1 as int),
        crop_fits(4 * w1 * h1, w1 as int, x2 as int, y2 as int, w2 as int, h2 as int),
        crop_fits(
            shot.rgba@.len() as int,
            shot.width as int,
            x1 + x2,
            y1 + y2,
            w2 as int,
            h2 as int,
        ),
        cropped(cropped(shot.rgba@, shot.width as int, x1 as int, y1 as int, w1 as int, h1 as int), w1 as int, x2 as int, y2 as int, w2 as int, h2 as int)
            == cropped(shot.rgba@, shot.width as int, x1 + x2, y1 + y2, w2 as int, h2 as int),
{
    let sw = shot.width as int;
    let sh = shot.height as int;
    lemma_rect_fits(sw, sh, x1 as int, y1 as int, w1 as int, h1 as int);
    lemma_rect_fits(w1 as int, h1 as int, x2 as int, y2 as int, w2 as int, h2 as int);
    lemma_rect_fits(sw, sh, x1 + x2, y1 + y2, w2 as int, h2 as int);
    law_crop_compose(shot.rgba@, sw, x1 as int, y1 as int, w1 as int, h1 as int, x2 as int, y2 as int, w2 as int, h2 as int);
}

/// Byte `k` of pixel (`c`, `r`) of a crop is byte `k` of pixel
/// (`x + c`, `y + r`) of the source image; a crop has `4 * width * height`
/// bytes.
pub proof fn law_crop_pixel(
    src: Seq<u8>,
    src_width: int,
    x: int,
    y: int,
    width: int,
    height: int,
    r: int,
    c: int,
    k: int,
)
    requires
        0 <= r < height,
        0 <= c < width,
        0 <= k < 4,
    ensures
        cropped(src, src_width, x, y, width, height).len() == 4 * width * height,
        cropped(src, src_width, x, y, width, height)[r * (4 * width) + 4 * c + k] == src[(y + r) * (4
            * src_width) + 4 * (x + c) + k],
{
    let i = r * (4 * width) + 4 * c + k;
    assert(0 <= i < 4 * width * height) by (nonlinear_arith)
        requires
            0 <= r < height,
            0 <= c < width,
            0 <= k < 4,
            i == r * (4 * width) + 4 * c + k,
    ;
    lemma_fundamental_div_mod_converse(i, 4 * width, r, 4 * c + k);
}

} // verus!
