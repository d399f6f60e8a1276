use vstd::prelude::*;
use crate::image::Screenshot;

verus! {

/// Why a PNG could not be written, by the kind of the `png` crate's error.
#[derive(Clone, Copy, Debug, PartialEq, Eq, Structural)]
pub enum PngError {
    /// Writing to the output failed.
    Io,
    /// The image cannot be a PNG (a zero width or height).
    Format,
    /// The pixel data does not match the image size.
    Parameter,
    /// A size limit of the encoder was exceeded.
    LimitsExceeded,
}

/// Name of the bytes that the `png` crate writes for an 8-bit RGBA image of
/// the given size and pixels.
pub uninterp spec fn png_rgba8(width: u32, height: u32, rgba: Seq<u8>) -> Seq<u8>;

/// The eight bytes that start every PNG file.
pub open spec fn png_signature() -> Seq<u8> {
    seq![137u8, 80u8, 78u8, 71u8, 13u8, 10u8, 26u8, 10u8]
}

/// A number as four bytes, most significant first.
pub open spec fn be32(v: u32) -> Seq<u8> {
    seq![(v / 16777216) as u8, (v / 65536 % 256) as u8, (v / 256 % 256) as u8, (v % 256) as u8]
}

/// How an 8-bit RGBA PNG of the given size begins: the signature, then the
/// header chunk's length (13) and type (`IHDR`), the width and the height,
/// bit depth 8, colour type 6 (RGBA), and compression method, filter method
/// and interlacing all 0. The chunk's checksum follows.
pub open spec fn png_rgba8_header(width: u32, height: u32) -> Seq<u8> {
    png_signature() + seq![0u8, 0u8, 0u8, 13u8, 73u8, 72u8, 68u8, 82u8] + be32(width) + be32(height)
        + seq![8u8, 6u8, 0u8, 0u8, 0u8]
}

/// The chunk that ends every PNG file: length 0, type `IEND`, and its
/// checksum.
pub open spec fn png_end_chunk() -> Seq<u8> {
    seq![0u8, 0u8, 0u8, 0u8, 73u8, 69u8, 78u8, 68u8, 0xAEu8, 0x42u8, 0x60u8, 0x82u8]
}

/// Name of what the `png` crate's decoder gives for the bytes, read with no
/// output transformation and no memory limit: the first frame's width and
/// height, its colour type and bit depth as the numbers that PNG uses for
/// them, and its pixel bytes; `None` where decoding fails.
pub uninterp spec fn png_decoded(bytes: Seq<u8>) -> Option<(u32, u32, u8, u8, Seq<u8>)>;

/// The `png` crate's decoder from memory: `Decoder::new_with_limits` on the
/// bytes with an unlimited byte budget (no transformation is set, so the
/// samples come out as stored), `read_info`, then `next_frame` into a buffer
/// of `output_buffer_size` bytes. The result is named, not stated; any error
/// of the crate gives `None`.
#[verifier::external_body]
fn png_decode(bytes: &[u8]) -> (r: Option<(u32, u32, u8, u8, Vec<u8>)>)
    ensures
        match r {
            Some((w, h, c, d, p)) => png_decoded(bytes@) == Some((w, h, c, d, p@)),
            None => png_decoded(bytes@) is None,
        },
{
    let decoder = png::Decoder::new_with_limits(std::io::Cursor::new(bytes), png::Limits { bytes: usize::MAX });
    let mut reader = decoder.read_info().ok()?;
    let mut buf = vec![0u8; reader.output_buffer_size()?];
    let info = reader.next_frame(&mut buf).ok()?;
    Some((info.width, info.height, info.color_type as u8, info.bit_depth as u8, buf))
}

/// The `png` crate's encoder into memory: `Encoder::new` on a byte vector,
/// colour type RGBA and bit depth 8, `write_header`, then
/// `write_image_data` (the writer appends the end chunk when dropped).
/// The crate's source shows: a zero width or height fails in `write_header`
/// with a format error; pixel data whose length is not `4 * width * height`
/// fails in `write_image_data` with a parameter error; otherwise writing
/// into memory succeeds. The output then starts with the signature and the
/// header chunk that `encode_header` writes (no interlacing by default), and
/// ends with the `IEND` chunk that the writer appends when it is dropped.
/// What lies between (the compressed pixel data) is named, not stated. The
/// encoding is lossless: the crate's own round-trip tests (`roundtrip_inner`,
/// `all_filters_roundtrip` in `encoder.rs`) decode what it wrote and get the
/// same size, colour type, bit depth and samples back; the decoder only
/// refuses an output larger than `isize::MAX` bytes.
#[verifier::external_body]
fn png_encode_rgba8(width: u32, height: u32, rgba: &[u8]) -> (r: Result<Vec<u8>, PngError>)
    requires
        4 * width * height <= usize::MAX,
    ensures
        (width == 0 || height == 0) ==> (r matches Err(PngError::Format)),
        width > 0 && height > 0 && rgba@.len() != 4 * width * height ==> (r matches Err(PngError::Parameter)),
        width > 0 && height > 0 && rgba@.len() == 4 * width * height ==> r is Ok,
        r matches Ok(bytes) ==> bytes@ == png_rgba8(width, height, rgba@),
        r matches Ok(bytes) ==> png_rgba8_header(width, height).is_prefix_of(bytes@),
        r matches Ok(bytes) ==> png_end_chunk().is_suffix_of(bytes@),
        4 * width * height <= isize::MAX ==> (r matches Ok(bytes) ==> png_decoded(bytes@) == Some(
            (width, height, 6u8, 8u8, rgba@),
        )),
{
    let mut bytes = Vec::new();
    let res = {
        let mut encoder = png::Encoder::new(&mut bytes, width, height);
        encoder.set_color(png::ColorType::Rgba);
        encoder.set_depth(png::BitDepth::Eight);
        encoder.write_header().and_then(|mut w| w.write_image_data(rgba))
    };
    match res {
        Ok(()) => Ok(bytes),
        Err(png::EncodingError::IoError(_)) => Err(PngError::Io),
        Err(png::EncodingError::Format(_)) => Err(PngError::Format),
        Err(png::EncodingError::Parameter(_)) => Err(PngError::Parameter),
        Err(png::EncodingError::LimitsExceeded) => Err(PngError::LimitsExceeded),
    }
}

/// Encodes a screenshot as an 8-bit RGBA PNG: its header records the
/// screenshot's width and height, the file ends with the `IEND` chunk, and
/// decoding it gives back the screenshot's size and pixels.
pub fn encode_png(screenshot: &Screenshot) -> (r: Result<Vec<u8>, PngError>)
    requires
        4 * screenshot.width * screenshot.height <= usize::MAX,
    ensures
        screenshot.width == 0 || screenshot.height == 0 ==> r matches Err(PngError::Format),
        screenshot.width > 0 && screenshot.height > 0 && !screenshot.wf() ==> r matches Err(PngError::Parameter),
        screenshot.width > 0 && screenshot.height > 0 && screenshot.wf() ==> (r matches Ok(bytes) && bytes@
            == png_rgba8(screenshot.width, screenshot.height, screenshot.rgba@)
            && png_rgba8_header(screenshot.width, screenshot.height).is_prefix_of(bytes@)
            && png_end_chunk().is_suffix_of(bytes@)),
        screenshot.width > 0 && screenshot.height > 0 && screenshot.wf() && 4 * screenshot.width
            * screenshot.height <= isize::MAX ==> (r matches Ok(bytes) && png_decoded(bytes@) == Some(
            (screenshot.width, screenshot.height, 6u8, 8u8, screenshot.rgba@),
        )),
{
    png_encode_rgba8(screenshot.width, screenshot.height, screenshot.rgba.as_slice())
}

/// Reads an 8-bit RGBA PNG back into a screenshot: `None` where the bytes do
/// not decode, or decode to another colour type or bit depth.
pub fn decode_png(bytes: &[u8]) -> (r: Option<Screenshot>)
    ensures
        match png_decoded(bytes@) {
            Some((w, h, c, d, p)) => if c == 6 && d == 8 {
                r matches Some(s) && s.width == w && s.height == h && s.rgba@ == p
            } else {
                r is None
            },
            None => r is None,
        },
{
    match png_decode(bytes) {
        Some((width, height, color, depth, rgba)) => {
            if color == 6 && depth == 8 {
                Some(Screenshot { width, height, rgba })
            } else {
                None
            }
        },
        None => None,
    }
}

/// Decoding the PNG of a well-formed, non-empty screenshot gives the
/// screenshot back: the same width, height and pixels.
pub fn png_round_trip(screenshot: &Screenshot) -> (r: Option<Screenshot>)
    requires
        screenshot.width > 0,
        screenshot.height > 0,
        screenshot.wf(),
        4 * screenshot.width * screenshot.height <= isize::MAX,
    ensures
        r matches Some(s) && s.width == screenshot.width && s.height == screenshot.height && s.rgba@
            == screenshot.rgba@,
{
    match encode_png(screenshot) {
        Ok(bytes) => decode_png(bytes.as_slice()),
        Err(_) => None,
    }
}

} // verus!
