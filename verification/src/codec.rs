//! The image codec adapter: encodes a raw pixel buffer to a portable PNG
//! stream and decodes such a stream back into pixels for display.

use vstd::prelude::*;

verus! {

/// A raw interleaved 8-bit RGB pixel buffer, row-major.
#[derive(Clone, Debug, PartialEq)]
pub struct PixelImage {
    pub width: u32,
    pub height: u32,
    pub rgb: Vec<u8>,
}

impl PixelImage {
    /// Exactly three bytes per pixel.
    pub open spec fn wf(&self) -> bool {
        self.rgb@.len() == 3 * (self.width as int) * (self.height as int)
    }

    /// Decides well-formedness at run time, for buffers that arrive from
    /// outside the library and carry no proof.
    pub fn is_well_formed(&self) -> (b: bool)
        ensures
            b == self.wf(),
    {
        let w: u128 = self.width as u128;
        let h: u128 = self.height as u128;
        proof {
            assert(w * h <= 0xFFFF_FFFFu128 * 0xFFFF_FFFFu128) by (nonlinear_arith)
                requires
                    w <= 0xFFFF_FFFFu128,
                    h <= 0xFFFF_FFFFu128,
            ;
            assert(3 * ((self.width as int) * (self.height as int)) == 3 * (self.width as int) * (
            self.height as int)) by (nonlinear_arith);
        }
        (self.rgb.len() as u128) == 3u128 * (w * h)
    }
}

/// Why the codec returned no result.
#[derive(Clone, Copy, Debug, PartialEq, Eq, Structural)]
pub enum CodecError {
    /// The canvas has a zero dimension, which the encoder rejects.
    EmptyCanvas,
    /// The bytes do not form a readable image.
    UnreadableBytes,
}

/// The PNG stream the codec produces for a pixel buffer. The stream is a
/// fixed function of the dimensions and pixels alone; it is named here rather
/// than written out, and contracts speak of this name exactly.
pub uninterp spec fn png_bytes_of(width: u32, height: u32, rgb: Seq<u8>) -> Seq<u8>;

/// Whether the codec can read a byte stream at all: a fixed function of the
/// bytes alone.
pub uninterp spec fn png_decodable(bytes: Seq<u8>) -> bool;

/// The pixel buffer the codec recovers from an image byte stream: a fixed
/// function of the bytes alone.
pub uninterp spec fn decoded_rgb_of(bytes: Seq<u8>) -> Seq<u8>;

/// The width the codec recovers from an image byte stream.
pub uninterp spec fn decoded_width_of(bytes: Seq<u8>) -> u32;

/// The height the codec recovers from an image byte stream.
pub uninterp spec fn decoded_height_of(bytes: Seq<u8>) -> u32;

/// Relies on image::RgbImage::from_raw and ImageBuffer::write_to with the PNG
/// format: a buffer of exactly three bytes per pixel encodes to a PNG stream;
/// the encoder rejects a zero-width or zero-height canvas and, writing into a
/// plain byte vector, fails on nothing else. The length precondition keeps the
/// buffer-size check inside the encoder from panicking. PNG is a lossless
/// format, and an eight-bit RGB stream reads back as eight-bit RGB: the
/// stream the encoder returns decodes to exactly the dimensions and pixels
/// handed in. The round-trip claim holds for every canvas because the
/// decoder behind `decode_rgb_raw` runs with the crate's allocation cap
/// removed; the encoder itself has none.
#[verifier::external_body]
fn encode_png_raw(width: u32, height: u32, rgb: &Vec<u8>) -> (r: Option<Vec<u8>>)
    requires
        rgb@.len() == 3 * (width as int) * (height as int),
    ensures
        r matches Some(b) ==> b@ == png_bytes_of(width, height, rgb@),
        r is Some <==> (width >= 1 && height >= 1),
        r matches Some(b) ==> png_decodable(b@) && decoded_rgb_of(b@) == rgb@ && decoded_width_of(
            b@,
        ) == width && decoded_height_of(b@) == height,
{
    let img = match image::RgbImage::from_raw(width, height, rgb.clone()) {
        Some(i) => i,
        None => return None,
    };
    let mut out: Vec<u8> = Vec::new();
    match img.write_to(&mut std::io::Cursor::new(&mut out), image::ImageOutputFormat::Png) {
        Ok(()) => Some(out),
        Err(_) => None,
    }
}

/// Relies on image::io::Reader — with its decoding limits disabled — and
/// DynamicImage::to_rgb8: whether a byte stream is readable, and the buffer
/// and dimensions it holds, are fixed functions of the bytes; a readable
/// stream decodes to an interleaved RGB buffer of exactly three bytes per
/// pixel; malformed bytes are reported, never a panic. The default allocation
/// cap is removed so that readability depends on the bytes alone, not on the
/// canvas size: every stream the encoder returns reads back.
#[verifier::external_body]
fn decode_rgb_raw(bytes: &Vec<u8>) -> (r: Option<PixelImage>)
    ensures
        r is Some <==> png_decodable(bytes@),
        r matches Some(img) ==> img.wf() && img.rgb@ == decoded_rgb_of(bytes@) && img.width
            == decoded_width_of(bytes@) && img.height == decoded_height_of(bytes@),
{
    let mut reader = image::io::Reader::new(std::io::Cursor::new(bytes.as_slice()));
    reader.no_limits();
    let reader = match reader.with_guessed_format() {
        Ok(r) => r,
        Err(_) => return None,
    };
    let decoded = match reader.decode() {
        Ok(i) => i,
        Err(_) => return None,
    };
    let buffer = decoded.to_rgb8();
    let (width, height) = buffer.dimensions();
    Some(PixelImage { width, height, rgb: buffer.into_raw() })
}

/// Encodes a pixel buffer as a PNG stream. Succeeds exactly when the canvas
/// has at least one pixel; the stream is then the fixed encoding of the
/// buffer, and it decodes back to exactly the buffer and dimensions handed
/// in — the codec is lossless.
pub fn encode_png(img: &PixelImage) -> (r: Result<Vec<u8>, CodecError>)
    requires
        img.wf(),
    ensures
        r matches Ok(b) ==> b@ == png_bytes_of(img.width, img.height, img.rgb@),
        r is Ok <==> (img.width >= 1 && img.height >= 1),
        r matches Err(e) ==> e == CodecError::EmptyCanvas,
        r matches Ok(b) ==> png_decodable(b@) && decoded_rgb_of(b@) == img.rgb@ && decoded_width_of(
            b@,
        ) == img.width && decoded_height_of(b@) == img.height,
{
    match encode_png_raw(img.width, img.height, &img.rgb) {
        Some(b) => Ok(b),
        None => Err(CodecError::EmptyCanvas),
    }
}

/// Decodes an image byte stream for display. Succeeds exactly when the bytes
/// are readable; the recovered buffer is then well formed and is the fixed
/// decoding of the stream, dimensions included.
pub fn decode_for_display(bytes: &Vec<u8>) -> (r: Result<PixelImage, CodecError>)
    ensures
        r is Ok <==> png_decodable(bytes@),
        r matches Ok(img) ==> img.wf() && img.rgb@ == decoded_rgb_of(bytes@) && img.width
            == decoded_width_of(bytes@) && img.height == decoded_height_of(bytes@),
        r matches Err(e) ==> e == CodecError::UnreadableBytes,
{
    match decode_rgb_raw(bytes) {
        Some(img) => Ok(img),
        None => Err(CodecError::UnreadableBytes),
    }
}

/// Law: distinct pixels give distinct streams. For streams that decode back
/// to their source buffers — as every stream the encoder returns does — the
/// streams differ whenever the buffers differ, so two successful generations
/// with different pixels retain different byte sequences.
pub proof fn lemma_distinct_pixels_distinct_streams(
    stream1: Seq<u8>,
    rgb1: Seq<u8>,
    stream2: Seq<u8>,
    rgb2: Seq<u8>,
)
    requires
        decoded_rgb_of(stream1) == rgb1,
        decoded_rgb_of(stream2) == rgb2,
        rgb1 != rgb2,
    ensures
        stream1 != stream2,
{
}

} // verus!
