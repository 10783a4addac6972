//! The outside encoders and decoders the library relies on: Base64 (the
//! `base64` crate's standard engine) and image decoding, cropping and PNG
//! encoding (the `image` crate). Every item here is trusted: its contract is
//! what the outside crate's source and documentation show, not a proof.
use vstd::prelude::*;
use base64::Engine;
use crate::base64_text::{base64_decoded, base64_encoded};
use crate::raster::cut_model;
use crate::text::has_prefix;

verus! {

/// The `image` crate's in-memory image of any pixel layout.
#[verifier::external_type_specification]
#[verifier::external_body]
pub struct ExDynamicImage(image::DynamicImage);

/// The image that `image::load_from_memory` reads from `bytes`, as its
/// layout and samples: (channels, bytes per pixel, width, height, samples
/// row by row), or `None` where it fails. Only for images with 8-bit samples
/// (bytes per pixel equal to channels) does any item claim what the samples
/// are.
pub uninterp spec fn decoded_model(bytes: Seq<u8>) -> Option<(u8, u8, u32, u32, Seq<u8>)>;

/// The image that `image::load_from_memory` reads from `bytes`, converted
/// with `to_rgba8`: width, height and 8-bit RGBA samples row by row, or
/// `None` where reading fails.
pub uninterp spec fn decoded_image(bytes: Seq<u8>) -> Option<(u32, u32, Seq<u8>)>;

/// The PNG file that `image::DynamicImage::write_to` writes for an image
/// with 8-bit samples, `channels` per pixel (grey, grey and alpha, RGB,
/// RGBA), of the given size and samples; `None` where the encoder fails.
pub uninterp spec fn png_of(channels: u8, width: u32, height: u32, samples: Seq<u8>) -> Option<Seq<u8>>;

/// The PNG file that the `image` crate writes for an RGBA image of the
/// given size and samples, or `None` where the encoder fails.
pub uninterp spec fn rgba_png(width: u32, height: u32, pixels: Seq<u8>) -> Option<Seq<u8>>;

/// Beginning of the message for text the Base64 engine rejects.
pub open spec fn decode_failure_prefix() -> Seq<char> {
    "Failed to decode base64: "@
}

/// Beginning of the message for bytes the image decoder rejects.
pub open spec fn load_failure_prefix() -> Seq<char> {
    "Failed to load image: "@
}

/// Beginning of the message for an image the PNG encoder fails on.
pub open spec fn encode_failure_prefix() -> Seq<char> {
    "Failed to encode PNG: "@
}

/// The image decoder's default allocation limit, 512 MiB: reading a file
/// reserves the image's sample bytes against it, and the PNG decoder
/// reserves one row against its own copy of it, so an image whose samples
/// take at most this many bytes is read back.
pub open spec fn decode_budget() -> int {
    536870912int
}

/// An image of this size with this many bytes per pixel is small enough to
/// be read back after encoding.
pub open spec fn fits_budget(width: u32, height: u32, pixel_bytes: int) -> bool {
    width * height * pixel_bytes <= decode_budget()
}

/// An RGBA image of this size is small enough to be read back after
/// encoding.
pub open spec fn rgba_fits_budget(width: u32, height: u32) -> bool {
    fits_budget(width, height, 4)
}

/// The largest width or height the PNG format records.
pub open spec fn png_max_side() -> int {
    2147483647int
}

/// A PNG file can be written for an image of this size.
pub open spec fn png_side_ok(width: u32, height: u32) -> bool {
    0 < width <= png_max_side() && 0 < height <= png_max_side()
}

/// An image layout the `image` crate holds: 1 to 4 channels of 8-bit,
/// 16-bit or 32-bit samples, and exactly one sample per channel and pixel.
pub open spec fn valid_layout(m: (u8, u8, u32, u32, Seq<u8>)) -> bool {
    &&& 1 <= m.0 <= 4
    &&& (m.1 == m.0 || m.1 == 2 * m.0 || m.1 == 4 * m.0)
    &&& m.4.len() == m.2 * m.3 * m.1
}

/// An image with 8-bit RGBA samples, row by row.
#[derive(Debug)]
pub struct RgbaFrame {
    pub width: u32,
    pub height: u32,
    pub pixels: Vec<u8>,
}

/// A decoded image of any pixel layout, with its layout and its samples as
/// they lie in memory.
pub(crate) struct LoadedImage {
    image: image::DynamicImage,
    channels: u8,
    pixel_bytes: u8,
    width: u32,
    height: u32,
    samples: Vec<u8>,
}

impl LoadedImage {
    /// The image's layout and samples: (channels, bytes per pixel, width,
    /// height, samples).
    pub(crate) closed spec fn model(&self) -> (u8, u8, u32, u32, Seq<u8>) {
        (self.channels, self.pixel_bytes, self.width, self.height, self.samples@)
    }

    /// Width in pixels.
    pub(crate) fn width(&self) -> (res: u32)
        ensures
            res == self.model().2,
    {
        self.width
    }

    /// Height in pixels.
    pub(crate) fn height(&self) -> (res: u32)
        ensures
            res == self.model().3,
    {
        self.height
    }
}

/// Decodes `text` with the standard Base64 engine
/// (`base64::engine::general_purpose::STANDARD.decode`). Claims: since this
/// engine requires canonical padding and zero trailing bits, it accepts
/// exactly the padded standard Base64 encodings, and returns the bytes so
/// encoded (`base64_decoded`); a rejection is reported with the
/// decode-failure message.
#[verifier::external_body]
pub(crate) fn base64_decode(text: &str) -> (res: Result<Vec<u8>, String>)
    ensures
        match base64_decoded(text@) {
            Some(bytes) => res matches Ok(v) && v@ == bytes,
            None => res matches Err(m) && has_prefix(m@, decode_failure_prefix()),
        },
        res matches Ok(v) ==> base64_encoded(v@) == text@,
{
    base64::engine::general_purpose::STANDARD.decode(text).map_err(|e| format!("Failed to decode base64: {}", e))
}

/// Encodes `bytes` with the standard Base64 engine
/// (`base64::engine::general_purpose::STANDARD.encode`), which panics only
/// where the encoded length overflows `usize`. Claims: the text is padded
/// standard Base64.
#[verifier::external_body]
pub(crate) fn base64_encode(bytes: &[u8]) -> (res: String)
    requires
        bytes@.len() <= isize::MAX,
    ensures
        res@ == base64_encoded(bytes@),
{
    base64::engine::general_purpose::STANDARD.encode(bytes)
}

/// Reads an image with `image::load_from_memory` and records its layout
/// (`color().channel_count()`, `color().bytes_per_pixel()`, `width`,
/// `height`) and its samples (`as_bytes`). Claims: it succeeds exactly where
/// `decoded_model` is defined, with that layout and, for 8-bit samples,
/// those samples; the layout is one the crate holds; a failure is reported
/// with the load-failure message.
#[verifier::external_body]
pub(crate) fn load_image(bytes: &[u8]) -> (res: Result<LoadedImage, String>)
    ensures
        match decoded_model(bytes@) {
            Some(m) => res matches Ok(img) && img.model().0 == m.0 && img.model().1 == m.1
                && img.model().2 == m.2 && img.model().3 == m.3 && (m.1 == m.0 ==> img.model().4 == m.4),
            None => res matches Err(e) && has_prefix(e@, load_failure_prefix()),
        },
        res matches Ok(img) ==> valid_layout(img.model()),
{
    let image = image::load_from_memory(bytes).map_err(|e| format!("Failed to load image: {}", e))?;
    let color = image.color();
    Ok(LoadedImage {
        channels: color.channel_count(),
        pixel_bytes: color.bytes_per_pixel(),
        width: image.width(),
        height: image.height(),
        samples: image.as_bytes().to_vec(),
        image,
    })
}

/// Cuts a region out of an image (`image::DynamicImage::crop_imm`, which
/// returns the same cut-out as `crop`; neither changes the image). Claims:
/// the result has the source's layout, the size of the request clamped to
/// the image (`imageops::crop_dimms`), and the samples of that rectangle of
/// the source, row by row (`SubImage::to_image` copies pixel (x, y) from
/// the source's (x + offset, y + offset)).
#[verifier::external_body]
pub(crate) fn crop_image(img: &LoadedImage, x: u32, y: u32, w: u32, h: u32) -> (res: LoadedImage)
    ensures
        res.model() == cut_model(img.model(), x, y, w, h),
{
    let image = img.image.crop_imm(x, y, w, h);
    let color = image.color();
    LoadedImage {
        channels: color.channel_count(),
        pixel_bytes: color.bytes_per_pixel(),
        width: image.width(),
        height: image.height(),
        samples: image.as_bytes().to_vec(),
        image,
    }
}

/// Writes an image as PNG (`image::DynamicImage::write_to` with
/// `ImageFormat::Png` into a `Vec`). Claims, from the PNG encoder's source:
/// for 8-bit samples the bytes are the named `png_of`; for 8-bit and 16-bit
/// samples writing succeeds when both sides are positive and within the PNG
/// limit (the encoder fails only on a zero side; the 16-bit path's byte
/// reordering reports a failed allocation as an error, and allocation
/// failure is not modelled here, as nowhere in Verus's own specifications
/// of `Vec`); 32-bit float
/// samples are refused; a failure is reported with the encode-failure
/// message; the bytes fit a `Vec`; and, within the decode budget, PNG being
/// lossless, `image::load_from_memory` reads back the same layout and (for
/// 8-bit samples) the same samples.
#[verifier::external_body]
pub(crate) fn encode_png(img: &LoadedImage) -> (res: Result<Vec<u8>, String>)
    ensures
        img.model().1 == img.model().0 ==> match png_of(img.model().0, img.model().2, img.model().3, img.model().4) {
            Some(p) => res matches Ok(v) && v@ == p,
            None => res is Err,
        },
        (img.model().1 == img.model().0 || img.model().1 == 2 * img.model().0) && png_side_ok(
            img.model().2,
            img.model().3,
        ) ==> res is Ok,
        img.model().1 == 4 * img.model().0 ==> res is Err,
        res matches Ok(v) ==> v@.len() <= isize::MAX,
        res matches Ok(v) ==> (fits_budget(img.model().2, img.model().3, img.model().1 as int) ==> (
            decoded_model(v@) matches Some(m) && m.0 == img.model().0 && m.1 == img.model().1
                && m.2 == img.model().2 && m.3 == img.model().3 && (m.1 == m.0 ==> m.4 == img.model().4))),
        res matches Err(e) ==> has_prefix(e@, encode_failure_prefix()),
{
    let mut out: Vec<u8> = Vec::new();
    img.image.write_to(&mut std::io::Cursor::new(&mut out), image::ImageFormat::Png)
        .map_err(|e| format!("Failed to encode PNG: {}", e))?;
    Ok(out)
}

/// Reads an image with `image::load_from_memory` and converts it to 8-bit
/// RGBA (`to_rgba8`, then `dimensions` and `into_raw`). Claims: the result is
/// the named `decoded_image`, with four samples per pixel; it exists exactly
/// where `decoded_model` does, with the same size, and for an RGBA image
/// with 8-bit samples the samples are unchanged (`to_rgba8` clones an
/// `ImageRgba8`); a failure is reported with the load-failure message.
#[verifier::external_body]
pub(crate) fn load_rgba(bytes: &[u8]) -> (res: Result<RgbaFrame, String>)
    ensures
        match decoded_image(bytes@) {
            Some((w, h, px)) => res matches Ok(f) && f.width == w && f.height == h && f.pixels@ == px,
            None => res matches Err(m) && has_prefix(m@, load_failure_prefix()),
        },
        res matches Ok(f) ==> f.pixels@.len() == f.width * f.height * 4,
        match decoded_model(bytes@) {
            Some(m) => res matches Ok(f) && f.width == m.2 && f.height == m.3 && (m.0 == 4 && m.1 == 4
                ==> f.pixels@ == m.4),
            None => res is Err,
        },
{
    let image = image::load_from_memory(bytes).map_err(|e| format!("Failed to load image: {}", e))?;
    let rgba = image.to_rgba8();
    let (width, height) = rgba.dimensions();
    Ok(RgbaFrame { width, height, pixels: rgba.into_raw() })
}

/// Writes an RGBA image as PNG (`image::RgbaImage::from_raw`, which accepts
/// a buffer of exactly four samples per pixel, then `write_to` with
/// `ImageFormat::Png`). Claims: the result is the named `rgba_png`, writing
/// succeeds when both sides are positive and within the PNG limit, a
/// failure is reported with the encode-failure message, and, within the
/// decode budget, PNG being lossless, `image::load_from_memory` reads back
/// an RGBA image with exactly the same size and samples.
#[verifier::external_body]
pub(crate) fn encode_rgba_png(width: u32, height: u32, pixels: Vec<u8>) -> (res: Result<Vec<u8>, String>)
    requires
        pixels@.len() == width * height * 4,
    ensures
        match rgba_png(width, height, pixels@) {
            Some(p) => res matches Ok(v) && v@ == p,
            None => res matches Err(m) && has_prefix(m@, encode_failure_prefix()),
        },
        png_side_ok(width, height) ==> res is Ok,
        res matches Ok(v) ==> v@.len() <= isize::MAX,
        res matches Ok(v) ==> (rgba_fits_budget(width, height) ==> decoded_image(v@) == Some(
            (width, height, pixels@),
        ) && decoded_model(v@) == Some((4u8, 4u8, width, height, pixels@))),
{
    let image = image::RgbaImage::from_raw(width, height, pixels).unwrap();
    let mut out: Vec<u8> = Vec::new();
    image.write_to(&mut std::io::Cursor::new(&mut out), image::ImageFormat::Png)
        .map_err(|e| format!("Failed to encode PNG: {}", e))?;
    Ok(out)
}

} // verus!
