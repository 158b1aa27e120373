//! The image codec capability: encoding a raw frame into a compressed
//! blob and decoding such a blob back into a raw frame.
//!
//! The codec itself is the image crate; this module gives its two
//! operations names and contracts, and builds the transport-facing
//! encode and decode steps on them.

use vstd::prelude::*;

use crate::errors::TransportError;
use crate::frame::Frame;

verus! {

/// The RGBA image that the codec decodes a blob to — width, height and
/// row-major RGBA bytes — or `None` when the blob is not a decodable
/// image. Decoding depends on the blob's bytes alone.
pub uninterp spec fn decoded_image(blob: Seq<u8>) -> Option<(u32, u32, Seq<u8>)>;

/// The PNG blob the codec encodes an RGBA image to, or `None` when the
/// encoder refuses the image. A function of the dimensions and pixels
/// alone.
pub uninterp spec fn png_encoding(width: u32, height: u32, pixels: Seq<u8>) -> Option<Seq<u8>>;

/// Relies on image::guess_format (a fixed magic-byte table, free of the
/// crate's run-time hook registries), image::ImageReader::with_format
/// (a built-in format, so decoding never consults those registries
/// either), and image::DynamicImage::to_rgba8: with the allocation
/// limit also switched off, decoding is deterministic in the input
/// bytes alone, and the RGBA buffer it yields holds exactly
/// `width * height` pixels of 4 bytes each. With no allocation cap, a
/// small blob may declare huge dimensions and cost a correspondingly
/// huge buffer; the transport's payload bound is the only size limit on
/// the receive path.
#[verifier::external_body]
fn decode_via_image(blob: &Vec<u8>) -> (r: Option<Frame>)
    ensures
        match r {
            Some(f) => decoded_image(blob@) == Some((f.width, f.height, f.pixels@)) && f.wf(),
            None => decoded_image(blob@) is None,
        },
{
    let format = match image::guess_format(blob.as_slice()) {
        Ok(f) => f,
        Err(_) => return None,
    };
    let mut reader = image::ImageReader::with_format(std::io::Cursor::new(blob.as_slice()), format);
    reader.no_limits();
    match reader.decode() {
        Ok(img) => {
            let rgba = img.to_rgba8();
            let (width, height) = rgba.dimensions();
            Some(Frame { width, height, pixels: rgba.into_raw() })
        },
        Err(_) => None,
    }
}

/// Relies on image::write_buffer_with_format with ImageFormat::Png and
/// ExtendedColorType::Rgba8: PNG encoding of an 8-bit RGBA buffer is
/// deterministic in the dimensions and pixels, and PNG is lossless, so
/// decoding the encoder's output (the fixed signature table maps the
/// PNG signature to the built-in PNG decoder, and the decoder above
/// runs without an allocation limit) recovers exactly the dimensions
/// and pixels that were encoded.
#[verifier::external_body]
fn encode_via_image(frame: &Frame) -> (r: Option<Vec<u8>>)
    requires
        frame.valid(),
    ensures
        match r {
            Some(b) => png_encoding(frame.width, frame.height, frame.pixels@) == Some(b@)
                && decoded_image(b@) == Some((frame.width, frame.height, frame.pixels@)),
            None => png_encoding(frame.width, frame.height, frame.pixels@) is None,
        },
{
    let mut out = std::io::Cursor::new(Vec::new());
    match image::write_buffer_with_format(
        &mut out,
        frame.pixels.as_slice(),
        frame.width,
        frame.height,
        image::ExtendedColorType::Rgba8,
        image::ImageFormat::Png,
    ) {
        Ok(()) => Some(out.into_inner()),
        Err(_) => None,
    }
}

/// Decode one well-framed payload into a raw frame. A payload the codec
/// cannot decode is a fatal `Codec` error: the session ends rather than
/// skipping the frame, so the displayed state never silently diverges.
pub fn decode_frame(payload: &Vec<u8>) -> (r: Result<Frame, TransportError>)
    ensures
        match r {
            Ok(f) => decoded_image(payload@) == Some((f.width, f.height, f.pixels@)) && f.wf(),
            Err(e) => e == TransportError::Codec && decoded_image(payload@) is None,
        },
{
    match decode_via_image(payload) {
        Some(f) => Ok(f),
        None => Err(TransportError::Codec),
    }
}

/// Encode one captured frame into a compressed blob. An encoder refusal
/// is a fatal `Codec` error for the sending session.
pub fn encode_frame(frame: &Frame) -> (r: Result<Vec<u8>, TransportError>)
    requires
        frame.valid(),
    ensures
        match r {
            Ok(b) => png_encoding(frame.width, frame.height, frame.pixels@) == Some(b@)
                && decoded_image(b@) == Some((frame.width, frame.height, frame.pixels@)),
            Err(e) => e == TransportError::Codec && png_encoding(
                frame.width,
                frame.height,
                frame.pixels@,
            ) is None,
        },
{
    match encode_via_image(frame) {
        Some(b) => Ok(b),
        None => Err(TransportError::Codec),
    }
}

/// Codec round trip: a frame the codec encodes decodes back to exactly
/// the same width, height and pixel data. `None` only when the encoder
/// refuses the frame.
pub fn codec_roundtrip(frame: &Frame) -> (r: Option<Frame>)
    requires
        frame.valid(),
    ensures
        match r {
            Some(g) => g.width == frame.width && g.height == frame.height && g.pixels@
                == frame.pixels@ && g.wf(),
            None => png_encoding(frame.width, frame.height, frame.pixels@) is None,
        },
{
    match encode_frame(frame) {
        Ok(blob) => {
            match decode_frame(&blob) {
                Ok(g) => Some(g),
                Err(_) => {
                    proof {
                        assert(false);
                    }
                    None
                },
            }
        },
        Err(_) => None,
    }
}

} // verus!
