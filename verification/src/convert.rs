use vstd::prelude::*;
use vstd::arithmetic::div_mod::lemma_fundamental_div_mod_converse;
use vstd::arithmetic::mul::{lemma_mul_inequality, lemma_mul_is_distributive_add, lemma_mul_nonnegative};
use crate::image::Screenshot;

verus! {

/// Pixel format of a shared-memory frame, as the compositor announced it.
#[derive(Clone, Copy, Debug, PartialEq, Eq, Structural)]
pub enum ShmFormat {
    /// 32-bit ARGB, stored in memory as B, G, R, A.
    Argb8888,
    /// 32-bit RGB with an unused byte, stored in memory as B, G, R, X.
    Xrgb8888,
    /// Another format of the protocol, by its numeric code.
    Other(u32),
    /// A code that the protocol does not define.
    Unknown(u32),
}

/// Geometry and format of the frame that the compositor copies into.
#[derive(Clone, Copy, Debug, PartialEq, Eq, Structural)]
pub struct Buffer {
    pub format: ShmFormat,
    pub width: i32,
    pub height: i32,
    pub stride: i32,
}

/// Why a frame could not be turned into an RGBA image.
#[derive(Clone, Copy, Debug, PartialEq, Eq, Structural)]
pub enum ConvertError {
    /// The format code is not one the protocol defines.
    UnknownFormat(u32),
    /// The format is defined but is neither ARGB8888 nor XRGB8888.
    UnsupportedFormat(u32),
}

/// Byte `i` of the RGBA image made from a frame whose rows are `stride`
/// bytes apart and `width` pixels wide: pixel `i / 4`, channel `i % 4`, taken
/// from the frame's B, G, R, A bytes; without `keep_alpha` the alpha is 255.
pub open spec fn rgba_byte(pixels: Seq<u8>, width: int, stride: int, keep_alpha: bool, i: int) -> u8 {
    let p = i / 4;
    let base = (p / width) * stride + (p % width) * 4;
    let c = i % 4;
    if c == 0 {
        pixels[base + 2]
    } else if c == 1 {
        pixels[base + 1]
    } else if c == 2 {
        pixels[base]
    } else if keep_alpha {
        pixels[base + 3]
    } else {
        255u8
    }
}

/// The first `n` bytes of the RGBA image made from a frame.
pub open spec fn rgba_prefix(pixels: Seq<u8>, width: int, stride: int, keep_alpha: bool, n: nat) -> Seq<u8> {
    Seq::new(n, |i: int| rgba_byte(pixels, width, stride, keep_alpha, i))
}

/// The RGBA image made from a `width` x `height` frame.
pub open spec fn frame_to_rgba(pixels: Seq<u8>, width: int, height: int, stride: int, keep_alpha: bool) -> Seq<u8> {
    rgba_prefix(pixels, width, stride, keep_alpha, (4 * width * height) as nat)
}

/// What converting `buffer`'s frame with bytes `pixels` gives, by format: an
/// undefined code is refused; a defined format other than ARGB8888 and
/// XRGB8888 is refused unless the frame is empty, in which case the image is
/// empty; ARGB8888 and XRGB8888 frames become the same-sized RGBA image.
pub open spec fn conversion_of(buffer: Buffer, pixels: Seq<u8>, r: Result<Screenshot, ConvertError>) -> bool {
    match buffer.format {
        ShmFormat::Unknown(code) => r == Err::<Screenshot, ConvertError>(ConvertError::UnknownFormat(code)),
        ShmFormat::Other(code) => if buffer.width > 0 && buffer.height > 0 {
            r == Err::<Screenshot, ConvertError>(ConvertError::UnsupportedFormat(code))
        } else {
            r matches Ok(shot) && shot.width == buffer.width as u32 && shot.height == buffer.height as u32
                && shot.rgba@ == Seq::<u8>::empty()
        },
        ShmFormat::Argb8888 => r matches Ok(shot) && shot.width == buffer.width as u32
            && shot.height == buffer.height as u32 && shot.rgba@ == frame_to_rgba(
            pixels,
            buffer.width as int,
            buffer.height as int,
            buffer.stride as int,
            true,
        ),
        ShmFormat::Xrgb8888 => r matches Ok(shot) && shot.width == buffer.width as u32
            && shot.height == buffer.height as u32 && shot.rgba@ == frame_to_rgba(
            pixels,
            buffer.width as int,
            buffer.height as int,
            buffer.stride as int,
            false,
        ),
    }
}

/// Every byte that the conversion reads lies inside a buffer of `len` bytes:
/// four bytes per pixel for ARGB8888, the three colour bytes per pixel for
/// XRGB8888, and the first pixel's colour bytes for another defined format,
/// which is read before the format is refused.
pub open spec fn frame_readable(buffer: Buffer, len: int) -> bool {
    let w = buffer.width as int;
    let h = buffer.height as int;
    let s = buffer.stride as int;
    w == 0 || h == 0 || match buffer.format {
        ShmFormat::Argb8888 => (h - 1) * s + 4 * w <= len,
        ShmFormat::Xrgb8888 => (h - 1) * s + 4 * (w - 1) + 3 <= len,
        ShmFormat::Other(_) => 3 <= len,
        ShmFormat::Unknown(_) => true,
    }
}

/// The frames [`to_rgba`] accepts: any frame of an undefined format (it is
/// refused at once); otherwise a frame with no pixel rows to read (a negative
/// width with no rows, or no columns, a negative row count and a zero
/// stride), or sizes that are not negative, an image that fits in memory, a
/// stride that is not negative where a second row of an ARGB8888 or
/// XRGB8888 frame is read, and reads inside the pixels.
pub open spec fn convertible(buffer: Buffer, len: int) -> bool {
    match buffer.format {
        ShmFormat::Unknown(_) => true,
        _ => {
            ||| buffer.width < 0 && buffer.height == 0
            ||| buffer.width == 0 && buffer.height < 0 && buffer.stride == 0
            ||| {
                &&& buffer.width >= 0
                &&& buffer.height >= 0
                &&& 4 * buffer.width * buffer.height <= usize::MAX
                &&& (buffer.format is Argb8888 || buffer.format is Xrgb8888) && buffer.height > 1
                    ==> buffer.stride >= 0
                &&& frame_readable(buffer, len)
            }
        },
    }
}

proof fn lemma_single_row_stride(pixels: Seq<u8>, width: int, height: int, stride: int, keep_alpha: bool)
    requires
        width >= 0,
        0 <= height <= 1,
    ensures
        frame_to_rgba(pixels, width, height, 0, keep_alpha) =~= frame_to_rgba(pixels, width, height, stride, keep_alpha),
{
    let a = frame_to_rgba(pixels, width, height, 0, keep_alpha);
    let b = frame_to_rgba(pixels, width, height, stride, keep_alpha);
    if height == 0 {
        assert(4 * width * height == 0) by (nonlinear_arith)
            requires
                height == 0,
        ;
    } else {
        assert(4 * width * height == 4 * width) by (nonlinear_arith)
            requires
                height == 1,
        ;
    }
    assert forall|i: int| 0 <= i < a.len() implies a[i] == b[i] by {
        assert(height == 1);
        assert(width > 0);
        vstd::arithmetic::div_mod::lemma_fundamental_div_mod(i, 4);
        lemma_fundamental_div_mod_converse(i / 4, width, 0, i / 4);
    }
}

/// A tightly packed ARGB8888 or XRGB8888 frame (stride `4 * width`, as
/// compositors send it) whose image fits in memory and whose shared memory
/// holds `stride * height` bytes can be converted.
pub proof fn law_packed_frame_convertible(buffer: Buffer, len: int)
    requires
        buffer.format is Argb8888 || buffer.format is Xrgb8888,
        buffer.width >= 0,
        buffer.height >= 0,
        4 * buffer.width * buffer.height <= usize::MAX,
        buffer.stride == 4 * buffer.width,
        len >= buffer.stride * buffer.height,
    ensures
        convertible(buffer, len),
{
    let w = buffer.width as int;
    let h = buffer.height as int;
    if w > 0 && h > 0 {
        assert((h - 1) * (4 * w) + 4 * w == (4 * w) * h) by (nonlinear_arith);
    }
}

/// Whether a frame of this layout, with `len` bytes of pixels, can be
/// converted by [`to_rgba`]: sizes are not negative, the image fits in memory,
/// and every byte the conversion reads lies inside the pixels.
pub fn can_convert(buffer: &Buffer, len: usize) -> (r: bool)
    ensures
        r == convertible(*buffer, len as int),
        (buffer.format is Argb8888 || buffer.format is Xrgb8888) && buffer.width >= 0 && buffer.height >= 0
            && 4 * buffer.width * buffer.height <= usize::MAX && buffer.stride == 4 * buffer.width && len
            >= buffer.stride * buffer.height ==> r,
{
    proof {
        if (buffer.format is Argb8888 || buffer.format is Xrgb8888) && buffer.width >= 0 && buffer.height >= 0
            && 4 * buffer.width * buffer.height <= usize::MAX && buffer.stride == 4 * buffer.width && len
            >= buffer.stride * buffer.height {
            law_packed_frame_convertible(*buffer, len as int);
        }
    }
    let is_unknown = match buffer.format {
        ShmFormat::Unknown(_) => true,
        _ => false,
    };
    if is_unknown {
        return true;
    }
    if (buffer.width < 0 && buffer.height == 0) || (buffer.width == 0 && buffer.height < 0 && buffer.stride == 0) {
        return true;
    }
    if buffer.width < 0 || buffer.height < 0 {
        return false;
    }
    let two_rows_read = match buffer.format {
        ShmFormat::Argb8888 | ShmFormat::Xrgb8888 => buffer.height > 1,
        _ => false,
    };
    if two_rows_read && buffer.stride < 0 {
        return false;
    }
    let w = buffer.width as u128;
    let h = buffer.height as u128;
    let n = len as u128;
    proof {
        vstd::arithmetic::mul::lemma_mul_upper_bound(w as int, 0x8000_0000, h as int, 0x8000_0000);
        vstd::arithmetic::mul::lemma_mul_is_associative(4, w as int, h as int);
    }
    if 4 * (w * h) > usize::MAX as u128 {
        return false;
    }
    if w == 0 || h == 0 {
        return true;
    }
    match buffer.format {
        ShmFormat::Other(_) => 3 <= n,
        _ => {
            if h == 1 {
                proof {
                    vstd::arithmetic::mul::lemma_mul_basics(buffer.stride as int);
                    assert((h - 1) * buffer.stride == 0);
                }
                match buffer.format {
                    ShmFormat::Argb8888 => 4 * w <= n,
                    _ => 4 * (w - 1) + 3 <= n,
                }
            } else {
                let s = buffer.stride as u128;
                proof {
                    vstd::arithmetic::mul::lemma_mul_upper_bound((h - 1) as int, 0x8000_0000, s as int, 0x8000_0000);
                }
                match buffer.format {
                    ShmFormat::Argb8888 => (h - 1) * s + 4 * w <= n,
                    _ => (h - 1) * s + 4 * (w - 1) + 3 <= n,
                }
            }
        },
    }
}

proof fn lemma_pixel_step(pixels: Seq<u8>, width: int, stride: int, keep_alpha: bool, row: int, col: int)
    requires
        width > 0,
        0 <= row,
        0 <= col < width,
    ensures
        ({
            let p = row * width + col;
            let base = row * stride + col * 4;
            let prev = rgba_prefix(pixels, width, stride, keep_alpha, (4 * p) as nat);
            let next = rgba_prefix(pixels, width, stride, keep_alpha, (4 * p + 4) as nat);
            next =~= prev.push(pixels[base + 2]).push(pixels[base + 1]).push(pixels[base]).push(
                if keep_alpha { pixels[base + 3] } else { 255u8 },
            )
        }),
{
    let p = row * width + col;
    lemma_mul_nonnegative(row, width);
    lemma_fundamental_div_mod_converse(p, width, row, col);
    lemma_fundamental_div_mod_converse(4 * p, 4, p, 0);
    lemma_fundamental_div_mod_converse(4 * p + 1, 4, p, 1);
    lemma_fundamental_div_mod_converse(4 * p + 2, 4, p, 2);
    lemma_fundamental_div_mod_converse(4 * p + 3, 4, p, 3);
}

proof fn lemma_pixel_bound(width: int, height: int, stride: int, row: int, col: int)
    requires
        0 <= row < height,
        0 <= col < width,
        stride >= 0,
    ensures
        row * stride + col * 4 <= (height - 1) * stride + (width - 1) * 4,
        0 <= row * stride,
{
    lemma_mul_inequality(row, height - 1, stride);
    lemma_mul_nonnegative(row, stride);
}

/// Converts a frame in the compositor's B, G, R, A/X byte order into an RGBA
/// image of the same size.
///
/// A format code that the protocol does not define is refused first. A
/// defined format other than ARGB8888 and XRGB8888 is refused when the frame
/// has at least one pixel; an empty frame of any defined format gives an
/// empty image, whose sizes are the frame's as unsigned 32-bit values.
/// XRGB8888 pixels get alpha 255.
pub fn to_rgba(buffer: &Buffer, pixels: &[u8]) -> (r: Result<Screenshot, ConvertError>)
    requires
        convertible(*buffer, pixels@.len() as int),
    ensures
        conversion_of(*buffer, pixels@, r),
        r matches Ok(shot) ==> shot.wf(),
{
    if let ShmFormat::Unknown(code) = buffer.format {
        return Err(ConvertError::UnknownFormat(code));
    }
    if buffer.width <= 0 || buffer.height <= 0 {
        proof {
            assert(4 * (buffer.width as u32) * (buffer.height as u32) == 0) by (nonlinear_arith)
                requires
                    buffer.width as u32 == 0 || buffer.height as u32 == 0,
            ;
            assert(4 * buffer.width * buffer.height == 0) by (nonlinear_arith)
                requires
                    buffer.width == 0 || buffer.height == 0,
            ;
            let (w, h, st) = (buffer.width as int, buffer.height as int, buffer.stride as int);
            assert(frame_to_rgba(pixels@, w, h, st, true) =~= Seq::<u8>::empty());
            assert(frame_to_rgba(pixels@, w, h, st, false) =~= Seq::<u8>::empty());
        }
        return Ok(Screenshot { width: buffer.width as u32, height: buffer.height as u32, rgba: Vec::new() });
    }
    let keep_alpha = match buffer.format {
        ShmFormat::Unknown(code) => {
            return Err(ConvertError::UnknownFormat(code));
        },
        ShmFormat::Other(code) => {
            return Err(ConvertError::UnsupportedFormat(code));
        },
        ShmFormat::Argb8888 => true,
        ShmFormat::Xrgb8888 => false,
    };
    let width = buffer.width as usize;
    let height = buffer.height as usize;
    let stride: usize = if height <= 1 {
        0
    } else {
        buffer.stride as usize
    };
    let ghost w = width as int;
    let ghost h = height as int;
    let ghost s = stride as int;
    proof {
        if h == 1 {
            vstd::arithmetic::mul::lemma_mul_basics(buffer.stride as int);
            assert((h - 1) * buffer.stride == 0);
        }
        if w > 0 && h > 0 {
            assert((h - 1) * s + 4 * (w - 1) + (if keep_alpha { 4int } else { 3int }) <= pixels@.len());
        }
    }
    let ghost px = pixels@;
    let len = pixels.len();
    let mut rgba: Vec<u8> = Vec::new();
    let mut row: usize = 0;
    proof {
        assert(rgba_prefix(px, w, s, keep_alpha, 0) =~= Seq::<u8>::empty());
        assert(0 * w == 0);
    }
    while row < height
        invariant
            row <= height,
            w == width,
            h == height,
            s == stride,
            px == pixels@,
            len == px.len(),
            width == buffer.width,
            height == buffer.height,
            s >= 0,
            keep_alpha == (buffer.format is Argb8888),
            w > 0 && h > 0 ==> (h - 1) * s + 4 * (w - 1) + (if keep_alpha { 4int } else { 3int }) <= len,
            rgba@ == rgba_prefix(px, w, s, keep_alpha, (4 * (row * w)) as nat),
        decreases height - row,
    {
        let mut col: usize = 0;
        proof {
            lemma_mul_nonnegative(row as int, w);
            assert(row * w + 0 == row * w);
        }
        while col < width
            invariant
                row < height,
                col <= width,
                w == width,
                h == height,
                s == stride,
                px == pixels@,
                len == px.len(),
                width == buffer.width,
                height == buffer.height,
                s >= 0,
                keep_alpha == (buffer.format is Argb8888),
                w > 0 && h > 0 ==> (h - 1) * s + 4 * (w - 1) + (if keep_alpha { 4int } else { 3int }) <= len,
                rgba@ == rgba_prefix(px, w, s, keep_alpha, (4 * (row * w + col)) as nat),
            decreases width - col,
        {
            proof {
                lemma_pixel_bound(w, h, s, row as int, col as int);
                lemma_pixel_step(px, w, s, keep_alpha, row as int, col as int);
            }
            let base = row * stride + col * 4;
            let b = pixels[base];
            let g = pixels[base + 1];
            let rd = pixels[base + 2];
            let a = if keep_alpha {
                pixels[base + 3]
            } else {
                255u8
            };
            rgba.push(rd);
            rgba.push(g);
            rgba.push(b);
            rgba.push(a);
            col += 1;
        }
        proof {
            lemma_mul_is_distributive_add(w, row as int, 1);
            assert(w * 1 == w);
            assert(row * w + w == (row + 1) * w) by {
                vstd::arithmetic::mul::lemma_mul_is_commutative(w, row as int);
                vstd::arithmetic::mul::lemma_mul_is_commutative(w, row as int + 1);
            }
        }
        row += 1;
    }
    proof {
        assert(4 * (h * w) == 4 * w * h) by {
            vstd::arithmetic::mul::lemma_mul_is_commutative(w, h);
            vstd::arithmetic::mul::lemma_mul_is_associative(4, w, h);
        }
        if h <= 1 {
            lemma_single_row_stride(px, w, h, buffer.stride as int, keep_alpha);
        }
    }
    Ok(Screenshot { width: buffer.width as u32, height: buffer.height as u32, rgba })
}

} // verus!

verus! {

/// The source channel of output channel `c` when red and blue trade places.
pub open spec fn swapped_channel(c: int) -> int {
    if c == 0 {
        2
    } else if c == 2 {
        0
    } else {
        c
    }
}

/// The first `n` bytes of `rgba` with red and blue swapped in every pixel.
pub open spec fn bgra_prefix(rgba: Seq<u8>, n: nat) -> Seq<u8> {
    Seq::new(n, |i: int| rgba[i - i % 4 + swapped_channel(i % 4)])
}

/// The whole pixels of `rgba` in B, G, R, A byte order (the memory layout of
/// an ARGB8888 shared-memory buffer); a trailing partial pixel is dropped.
pub open spec fn bgra_of(rgba: Seq<u8>) -> Seq<u8> {
    bgra_prefix(rgba, ((rgba.len() / 4) * 4) as nat)
}

proof fn lemma_bgra_step(rgba: Seq<u8>, p: int)
    requires
        0 <= p,
        4 * p + 4 <= rgba.len(),
    ensures
        bgra_prefix(rgba, (4 * p + 4) as nat) =~= bgra_prefix(rgba, (4 * p) as nat).push(rgba[4 * p + 2]).push(
            rgba[4 * p + 1],
        ).push(rgba[4 * p]).push(rgba[4 * p + 3]),
{
    lemma_fundamental_div_mod_converse(4 * p, 4, p, 0);
    lemma_fundamental_div_mod_converse(4 * p + 1, 4, p, 1);
    lemma_fundamental_div_mod_converse(4 * p + 2, 4, p, 2);
    lemma_fundamental_div_mod_converse(4 * p + 3, 4, p, 3);
}

/// Reorders RGBA pixels into the B, G, R, A bytes of an ARGB8888 buffer.
pub fn rgba_to_bgra(rgba: &[u8]) -> (out: Vec<u8>)
    ensures
        out@ == bgra_of(rgba@),
{
    let len = rgba.len();
    let n = len / 4;
    let mut out: Vec<u8> = Vec::new();
    let mut p: usize = 0;
    proof {
        assert(bgra_prefix(rgba@, 0) =~= Seq::<u8>::empty());
    }
    while p < n
        invariant
            len == rgba@.len(),
            n == len / 4,
            p <= n,
            out@ == bgra_prefix(rgba@, (4 * p) as nat),
        decreases n - p,
    {
        proof {
            lemma_bgra_step(rgba@, p as int);
        }
        let base = 4 * p;
        out.push(rgba[base + 2]);
        out.push(rgba[base + 1]);
        out.push(rgba[base]);
        out.push(rgba[base + 3]);
        p += 1;
    }
    out
}

/// Swapping red and blue twice gives the pixels back.
pub proof fn law_bgra_involution(rgba: Seq<u8>)
    requires
        rgba.len() % 4 == 0,
    ensures
        bgra_of(bgra_of(rgba)) == rgba,
{
    let once = bgra_of(rgba);
    let twice = bgra_of(once);
    assert(once.len() == rgba.len());
    assert forall|i: int| 0 <= i < rgba.len() implies twice[i] == rgba[i] by {
        let p = i / 4;
        let c = i % 4;
        vstd::arithmetic::div_mod::lemma_fundamental_div_mod(i, 4);
        let j = i - c + swapped_channel(c);
        lemma_fundamental_div_mod_converse(j, 4, p, swapped_channel(c));
    }
    assert(twice =~= rgba);
}

/// Converting an ARGB8888 frame whose rows are tightly packed (`4 * width`
/// bytes apart) and whose bytes are `bgra_of(rgba)` gives `rgba` back: the
/// overlay's buffer layout and the capture conversion undo each other.
pub proof fn law_frame_round_trip(rgba: Seq<u8>, width: int, height: int)
    requires
        width >= 0,
        height >= 0,
        rgba.len() == 4 * width * height,
    ensures
        frame_to_rgba(bgra_of(rgba), width, height, 4 * width, true) == rgba,
{
    let frame = bgra_of(rgba);
    let out = frame_to_rgba(frame, width, height, 4 * width, true);
    assert(rgba.len() % 4 == 0 && (rgba.len() / 4) * 4 == rgba.len()) by {
        vstd::arithmetic::mul::lemma_mul_is_associative(4, width, height);
        lemma_fundamental_div_mod_converse(rgba.len() as int, 4, width * height, 0);
    }
    assert(out.len() == rgba.len());
    assert forall|i: int| 0 <= i < rgba.len() implies out[i] == rgba[i] by {
        let p = i / 4;
        let c = i % 4;
        vstd::arithmetic::div_mod::lemma_fundamental_div_mod(i, 4);
        assert(width > 0) by {
            if width == 0 {
                assert(4 * width * height == 0);
            }
        }
        vstd::arithmetic::div_mod::lemma_fundamental_div_mod(p, width);
        let base = (p / width) * (4 * width) + (p % width) * 4;
        assert(base == 4 * p) by {
            vstd::arithmetic::mul::lemma_mul_is_associative(p / width, 4, width);
            vstd::arithmetic::mul::lemma_mul_is_commutative(p / width, 4);
            vstd::arithmetic::mul::lemma_mul_is_associative(4, p / width, width);
            vstd::arithmetic::mul::lemma_mul_is_commutative(p / width, width);
        }
        let k = if c == 0 { 2int } else if c == 1 { 1int } else if c == 2 { 0int } else { 3int };
        lemma_fundamental_div_mod_converse(4 * p + k, 4, p, k);
    }
    assert(out =~= rgba);
}

/// Every pixel converted from an XRGB8888 frame is opaque.
pub proof fn law_xrgb_is_opaque(pixels: Seq<u8>, width: int, height: int, stride: int, p: int)
    requires
        0 <= p,
        4 * p + 3 < 4 * width * height,
    ensures
        frame_to_rgba(pixels, width, height, stride, false)[4 * p + 3] == 255u8,
{
    lemma_fundamental_div_mod_converse(4 * p + 3, 4, p, 3);
}

/// Pixel (`col`, `row`) of the RGBA image made from a frame is pixel
/// `row * width + col` of the image, and its red, green, blue and alpha are
/// bytes 2, 1, 0 and 3 of the frame's pixel at byte `row * stride + 4 * col`
/// (alpha 255 where the frame's alpha is not kept); the image has
/// `4 * width * height` bytes.
pub proof fn law_frame_pixel(
    pixels: Seq<u8>,
    width: int,
    height: int,
    stride: int,
    keep_alpha: bool,
    row: int,
    col: int,
)
    requires
        0 <= row < height,
        0 <= col < width,
    ensures
        frame_to_rgba(pixels, width, height, stride, keep_alpha).len() == 4 * width * height,
        ({
            let out = frame_to_rgba(pixels, width, height, stride, keep_alpha);
            let q = row * width + col;
            let base = row * stride + 4 * col;
            &&& out[4 * q] == pixels[base + 2]
            &&& out[4 * q + 1] == pixels[base + 1]
            &&& out[4 * q + 2] == pixels[base]
            &&& out[4 * q + 3] == if keep_alpha { pixels[base + 3] } else { 255u8 }
        }),
{
    let q = row * width + col;
    assert(0 <= q && q + 1 <= width * height) by (nonlinear_arith)
        requires
            0 <= row < height,
            0 <= col < width,
            q == row * width + col,
    ;
    assert(4 * width * height == 4 * (width * height)) by (nonlinear_arith);
    lemma_fundamental_div_mod_converse(q, width, row, col);
    lemma_fundamental_div_mod_converse(4 * q, 4, q, 0);
    lemma_fundamental_div_mod_converse(4 * q + 1, 4, q, 1);
    lemma_fundamental_div_mod_converse(4 * q + 2, 4, q, 2);
    lemma_fundamental_div_mod_converse(4 * q + 3, 4, q, 3);
}

/// Pixel `q` of the reordered bytes holds the blue, green, red and alpha
/// bytes of pixel `q` of `rgba`, in that order; a trailing partial pixel is
/// dropped.
pub proof fn law_bgra_pixel(rgba: Seq<u8>, q: int)
    requires
        0 <= q,
        4 * q + 4 <= rgba.len(),
    ensures
        bgra_of(rgba).len() == rgba.len() - rgba.len() % 4,
        bgra_of(rgba)[4 * q] == rgba[4 * q + 2],
        bgra_of(rgba)[4 * q + 1] == rgba[4 * q + 1],
        bgra_of(rgba)[4 * q + 2] == rgba[4 * q],
        bgra_of(rgba)[4 * q + 3] == rgba[4 * q + 3],
{
    vstd::arithmetic::div_mod::lemma_fundamental_div_mod(rgba.len() as int, 4);
    lemma_fundamental_div_mod_converse(4 * q, 4, q, 0);
    lemma_fundamental_div_mod_converse(4 * q + 1, 4, q, 1);
    lemma_fundamental_div_mod_converse(4 * q + 2, 4, q, 2);
    lemma_fundamental_div_mod_converse(4 * q + 3, 4, q, 3);
    assert(4 * q + 4 <= rgba.len() - rgba.len() % 4);
}

} // verus!
