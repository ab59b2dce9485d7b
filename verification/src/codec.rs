//! Codec adapter.
//!
//! Decoding arbitrary image containers and producing WebP output are
//! outside capabilities; this module wraps them behind two trusted calls and
//! exposes verified `decode` and `encode` functions over them. A decoded
//! image is held as a plain 8-bit RGB pixel buffer with its dimensions;
//! images with an alpha channel or another color model are normalized to
//! that layout by the decoder, and the alpha channel is lost by design.

use vstd::prelude::*;

verus! {

/// A decoded image: an 8-bit RGB pixel buffer, three bytes per pixel in
/// row-major order.
pub struct DecodedImage {
    pub pixels: Vec<u8>,
    pub width: u32,
    pub height: u32,
}

impl DecodedImage {
    /// The buffer holds exactly three bytes for every pixel.
    pub open spec fn wf(&self) -> bool {
        self.pixels@.len() == 3 * self.width * self.height
    }
}

/// What the outside decoder makes of a byte buffer: `None` when the bytes
/// are not a readable image, otherwise the normalized RGB pixels with the
/// image's width and height. The decoder reads nothing but the bytes, so
/// this is a function of them alone.
pub uninterp spec fn decoded_rgb(bytes: Seq<u8>) -> Option<(Seq<u8>, int, int)>;

/// What the outside WebP encoder produces from an RGB buffer with the given
/// dimensions at the given quality: `None` when the encoder gives up (for
/// instance on dimensions beyond its limits), otherwise the compressed
/// bytes. The encoder reads nothing but its arguments, so this is a
/// function of them alone.
pub uninterp spec fn webp_encoding(
    pixels: Seq<u8>,
    width: int,
    height: int,
    quality: int,
) -> Option<Seq<u8>>;

/// Relies on image::load_from_memory, which guesses the container format
/// and decodes the bytes into a dynamic image, and on
/// DynamicImage::to_rgb8 with ImageBuffer::dimensions and into_raw, which
/// normalize it to an 8-bit RGB buffer of exactly width * height * 3 bytes.
/// Both read only the bytes they are given.
#[verifier::external_body]
fn decode_rgb(bytes: &Vec<u8>) -> (r: Option<DecodedImage>)
    ensures
        r is Some <==> decoded_rgb(bytes@) is Some,
        r matches Some(img) ==> {
            &&& decoded_rgb(bytes@) matches Some(d)
            &&& img.pixels@ == d.0
            &&& img.width == d.1
            &&& img.height == d.2
            &&& img.wf()
        },
{
    match image::load_from_memory(bytes.as_slice()) {
        Ok(img) => {
            let rgb = img.to_rgb8();
            let (width, height) = rgb.dimensions();
            Some(DecodedImage { pixels: rgb.into_raw(), width, height })
        },
        Err(_) => None,
    }
}

/// Relies on webp::Encoder::from_rgb, which only records the buffer, its
/// dimensions and the RGB layout, and on Encoder::encode_simple in lossy
/// mode, which hands the buffer to the WebP encoder at the given quality
/// and returns the compressed bytes, or an error code when encoding fails.
/// The encoder reads `3 * width` bytes per row for `height` rows, so the
/// buffer must be exactly that large, and the dimensions must fit the
/// 32-bit signed row arithmetic it performs. A successful encode always
/// emits at least the container header, so its payload is never empty.
#[verifier::external_body]
fn encode_rgb(img: &DecodedImage, quality: u8) -> (r: Option<Vec<u8>>)
    requires
        img.wf(),
        1 <= quality <= 100,
        3 * img.width <= 0x7fffffff,
        img.height <= 0x7fffffff,
    ensures
        r is Some <==> webp_encoding(
            img.pixels@,
            img.width as int,
            img.height as int,
            quality as int,
        ) is Some,
        r matches Some(payload) ==> {
            &&& webp_encoding(
                img.pixels@,
                img.width as int,
                img.height as int,
                quality as int,
            ) matches Some(p)
            &&& payload@ == p
            &&& payload@.len() > 0
        },
{
    let encoder = webp::Encoder::from_rgb(img.pixels.as_slice(), img.width, img.height);
    match encoder.encode_simple(false, quality.into()) {
        Ok(mem) => Some(mem.to_vec()),
        Err(_) => None,
    }
}

/// Decodes a byte buffer into a normalized RGB image. Fails exactly when
/// the bytes are not a readable image.
pub fn decode(bytes: &Vec<u8>) -> (r: Option<DecodedImage>)
    ensures
        r is Some <==> decoded_rgb(bytes@) is Some,
        r matches Some(img) ==> {
            &&& decoded_rgb(bytes@) matches Some(d)
            &&& img.pixels@ == d.0
            &&& img.width == d.1
            &&& img.height == d.2
            &&& img.wf()
        },
{
    decode_rgb(bytes)
}

/// Whether the image's dimensions fit the encoder's 32-bit row arithmetic.
pub open spec fn encodable_dims(width: int, height: int) -> bool {
    3 * width <= 0x7fffffff && height <= 0x7fffffff
}

/// Encodes a decoded image as WebP at the given quality. Images whose
/// dimensions overrun the encoder's limits are rejected up front; otherwise
/// the result is exactly what the encoder makes of the pixels, and a
/// produced payload is never empty.
pub fn encode(img: &DecodedImage, quality: u8) -> (r: Option<Vec<u8>>)
    requires
        img.wf(),
        1 <= quality <= 100,
    ensures
        r is Some <==> (encodable_dims(img.width as int, img.height as int) && webp_encoding(
            img.pixels@,
            img.width as int,
            img.height as int,
            quality as int,
        ) is Some),
        r matches Some(payload) ==> {
            &&& webp_encoding(
                img.pixels@,
                img.width as int,
                img.height as int,
                quality as int,
            ) matches Some(p)
            &&& payload@ == p
            &&& payload@.len() > 0
        },
{
    if img.width > 0x7fffffff / 3 || img.height > 0x7fffffff {
        return None;
    }
    encode_rgb(img, quality)
}

} // verus!
