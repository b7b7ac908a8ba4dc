//! The normalized bitmap type and its portable encodings: PNG serialization
//! through the `image` crate and text-safe base64 through the `base64`
//! crate, each behind a narrow trusted wrapper, with the round-trip laws
//! proved on top of them.

use vstd::prelude::*;
use base64::engine::general_purpose;
use base64::Engine;
use crate::errors::IconError;

verus! {

/// A normalized in-memory bitmap: RGBA, 8 bits per channel, row-major.
#[derive(Clone, Debug, PartialEq, Eq)]
pub struct IconBitmap {
    /// Width in pixels.
    pub width: u32,
    /// Height in pixels.
    pub height: u32,
    /// Exactly `4 * width * height` bytes of RGBA samples.
    pub data: Vec<u8>,
}

impl IconBitmap {
    /// The pixel buffer holds exactly four bytes per pixel.
    pub open spec fn wf(&self) -> bool {
        self.data@.len() == 4 * (self.width as int) * (self.height as int)
    }
}

/// The PNG serialization of an RGBA bitmap with the given dimensions and
/// samples. The bytes depend on the pixel values alone.
pub uninterp spec fn png_of(width: u32, height: u32, pixels: Seq<u8>) -> Seq<u8>;

/// What PNG decoding, with no allocation limit imposed, makes of a byte
/// sequence: the dimensions and RGBA samples of the image it holds, or
/// nothing when the bytes are not a decodable image. The result depends on
/// the bytes alone.
pub uninterp spec fn png_decode_of(bytes: Seq<u8>) -> Option<(u32, u32, Seq<u8>)>;

/// The standard-alphabet, padded base64 rendering of a byte sequence.
pub uninterp spec fn b64_of(bytes: Seq<u8>) -> Seq<char>;

/// What standard base64 decoding makes of a text: the bytes it encodes, or
/// nothing when the text is not a valid encoding.
pub uninterp spec fn b64_decode_of(text: Seq<char>) -> Option<Seq<u8>>;

/// Relies on `image::RgbaImage::write_to` with the PNG format: the encoder
/// reads only the dimensions and samples, so its output is a function of
/// them; it refuses nothing but a zero width or height, and writing to an
/// in-memory cursor cannot fail, so encoding a non-empty bitmap succeeds;
/// and PNG is lossless for 8-bit RGBA, so decoding the produced bytes with
/// no allocation limit gives the same dimensions and samples back.
#[verifier::external_body]
fn png_encode(bm: &IconBitmap) -> (r: Result<Vec<u8>, IconError>)
    requires
        bm.wf(),
    ensures
        (match r {
            Ok(b) => b@ == png_of(bm.width, bm.height, bm.data@) && png_decode_of(b@) == Some(
                (bm.width, bm.height, bm.data@),
            ),
            Err(e) => e == IconError::ImageEncode,
        }),
        bm.width > 0 && bm.height > 0 ==> r is Ok,
{
    let img = match image::RgbaImage::from_raw(bm.width, bm.height, bm.data.clone()) {
        Some(img) => img,
        None => return Err(IconError::ImageEncode),
    };
    let mut out: Vec<u8> = Vec::new();
    match img.write_to(&mut std::io::Cursor::new(&mut out), image::ImageFormat::Png) {
        Ok(()) => Ok(out),
        Err(_) => Err(IconError::ImageEncode),
    }
}

/// Relies on `image::ImageReader::decode` with the PNG format, allocation
/// limits disabled, and `DynamicImage::to_rgba8`: both compute from the
/// bytes alone; the buffer they produce holds exactly four bytes per pixel
/// of the decoded dimensions; and PNG cannot hold a zero-dimension image.
#[verifier::external_body]
fn png_decode(bytes: &Vec<u8>) -> (r: Result<IconBitmap, IconError>)
    ensures
        (match r {
            Ok(bm) => png_decode_of(bytes@) == Some((bm.width, bm.height, bm.data@)) && bm.wf()
                && bm.width > 0 && bm.height > 0,
            Err(e) => e == IconError::ImageDecode && png_decode_of(bytes@) is None,
        }),
{
    let mut reader = image::ImageReader::with_format(
        std::io::Cursor::new(bytes.as_slice()),
        image::ImageFormat::Png,
    );
    reader.no_limits();
    let img = match reader.decode() {
        Ok(img) => img,
        Err(_) => return Err(IconError::ImageDecode),
    };
    let rgba = img.to_rgba8();
    let (width, height) = rgba.dimensions();
    Ok(IconBitmap { width, height, data: rgba.into_raw() })
}

/// Relies on `base64::engine::general_purpose::STANDARD.encode`: the text is
/// a function of the bytes alone, and decoding it with the same engine gives
/// the bytes back.
#[verifier::external_body]
fn base64_encode(bytes: &Vec<u8>) -> (r: String)
    ensures
        r@ == b64_of(bytes@),
        b64_decode_of(r@) == Some(bytes@),
{
    general_purpose::STANDARD.encode(bytes.as_slice())
}

/// Relies on `base64::engine::general_purpose::STANDARD.decode`: the result
/// is a function of the text alone, and an error means the text is not a
/// valid standard base64 encoding.
#[verifier::external_body]
fn base64_decode(text: &str) -> (r: Result<Vec<u8>, IconError>)
    ensures
        (match r {
            Ok(v) => b64_decode_of(text@) == Some(v@),
            Err(e) => e == IconError::ImageDecode && b64_decode_of(text@) is None,
        }),
{
    match general_purpose::STANDARD.decode(text.as_bytes()) {
        Ok(v) => Ok(v),
        Err(_) => Err(IconError::ImageDecode),
    }
}

/// Serializes a bitmap as PNG bytes. Succeeds on every bitmap with a
/// non-zero width and height, and the produced bytes decode back to the
/// same bitmap.
pub fn bitmap_to_png(bm: &IconBitmap) -> (r: Result<Vec<u8>, IconError>)
    requires
        bm.wf(),
    ensures
        (match r {
            Ok(b) => b@ == png_of(bm.width, bm.height, bm.data@) && png_decode_of(b@) == Some(
                (bm.width, bm.height, bm.data@),
            ),
            Err(e) => e == IconError::ImageEncode,
        }),
        bm.width > 0 && bm.height > 0 ==> r is Ok,
{
    png_encode(bm)
}

/// Decodes PNG bytes into a normalized bitmap.
pub fn bitmap_from_png(bytes: &Vec<u8>) -> (r: Result<IconBitmap, IconError>)
    ensures
        (match r {
            Ok(bm) => png_decode_of(bytes@) == Some((bm.width, bm.height, bm.data@)) && bm.wf(),
            Err(e) => e == IconError::ImageDecode && png_decode_of(bytes@) is None,
        }),
{
    png_decode(bytes)
}

/// Renders bytes as standard base64 text; decoding the text gives the
/// bytes back.
pub fn bytes_to_base64(bytes: &Vec<u8>) -> (r: String)
    ensures
        r@ == b64_of(bytes@),
        b64_decode_of(r@) == Some(bytes@),
{
    base64_encode(bytes)
}

/// Decodes standard base64 text back into bytes.
pub fn bytes_from_base64(text: &str) -> (r: Result<Vec<u8>, IconError>)
    ensures
        (match r {
            Ok(v) => b64_decode_of(text@) == Some(v@),
            Err(e) => e == IconError::ImageDecode && b64_decode_of(text@) is None,
        }),
{
    base64_decode(text)
}

/// The text-safe payload for a bitmap: its PNG serialization, base64
/// encoded. Success is owed for every bitmap with a non-zero width and
/// height, and decoding the payload gives the PNG bytes and then the
/// bitmap back.
pub fn encoded_icon_of(bm: &IconBitmap) -> (r: Result<String, IconError>)
    requires
        bm.wf(),
    ensures
        (match r {
            Ok(t) => t@ == b64_of(png_of(bm.width, bm.height, bm.data@)) && b64_decode_of(t@)
                == Some(png_of(bm.width, bm.height, bm.data@)) && png_decode_of(
                png_of(bm.width, bm.height, bm.data@),
            ) == Some((bm.width, bm.height, bm.data@)),
            Err(e) => e == IconError::ImageEncode,
        }),
        bm.width > 0 && bm.height > 0 ==> r is Ok,
{
    match png_encode(bm) {
        Ok(bytes) => Ok(base64_encode(&bytes)),
        Err(e) => Err(e),
    }
}

/// Decodes a text payload produced by `encoded_icon_of` back into a bitmap.
pub fn bitmap_from_encoded(text: &str) -> (r: Result<IconBitmap, IconError>)
    ensures
        (match r {
            Ok(bm) => (match b64_decode_of(text@) {
                Some(bytes) => png_decode_of(bytes) == Some((bm.width, bm.height, bm.data@)),
                None => false,
            }) && bm.wf(),
            Err(e) => e == IconError::ImageDecode && (match b64_decode_of(text@) {
                Some(bytes) => png_decode_of(bytes) is None,
                None => true,
            }),
        }),
{
    match base64_decode(text) {
        Ok(bytes) => png_decode(&bytes),
        Err(e) => Err(e),
    }
}

/// Encoding a bitmap as PNG and decoding the bytes again gives the same
/// dimensions and samples back; the only possible failure is the encoder's
/// refusal of a zero dimension, so success is owed whenever both
/// dimensions are non-zero.
pub fn png_round_trip(bm: &IconBitmap) -> (r: Result<IconBitmap, IconError>)
    requires
        bm.wf(),
    ensures
        (match r {
            Ok(out) => out.width == bm.width && out.height == bm.height && out.data@ == bm.data@,
            Err(e) => e == IconError::ImageEncode,
        }),
        bm.width > 0 && bm.height > 0 ==> r is Ok,
{
    match png_encode(bm) {
        Ok(bytes) => {
            match png_decode(&bytes) {
                Ok(out) => Ok(out),
                Err(_) => {
                    proof {
                        assert(false);
                    }
                    Err(IconError::ImageEncode)
                },
            }
        },
        Err(e) => Err(e),
    }
}

/// The full payload round trip: producing the encoded icon for a non-empty
/// bitmap succeeds, and decoding that payload — base64 back to the PNG
/// bytes, then the PNG bytes back to pixels — returns the same dimensions
/// and samples. The zero-dimension bitmaps the PNG encoder refuses are the
/// one exclusion.
pub fn encoded_icon_round_trip(bm: &IconBitmap) -> (r: Result<IconBitmap, IconError>)
    requires
        bm.wf(),
        bm.width > 0,
        bm.height > 0,
    ensures
        (r matches Ok(out) && out.width == bm.width && out.height == bm.height && out.data@
            == bm.data@),
{
    let text = match encoded_icon_of(bm) {
        Ok(text) => text,
        Err(_) => {
            proof {
                assert(false);
            }
            return Err(IconError::ImageEncode);
        },
    };
    match bitmap_from_encoded(text.as_str()) {
        Ok(out) => Ok(out),
        Err(_) => {
            proof {
                assert(false);
            }
            Err(IconError::ImageDecode)
        },
    }
}

/// Base64-encoding any bytes and decoding the text again gives the same
/// bytes back, with no failure possible.
pub fn base64_round_trip(bytes: &Vec<u8>) -> (r: Vec<u8>)
    ensures
        r@ == bytes@,
{
    let text = base64_encode(bytes);
    match base64_decode(text.as_str()) {
        Ok(v) => v,
        Err(_) => {
            proof {
                assert(false);
            }
            Vec::new()
        },
    }
}

} // verus!
