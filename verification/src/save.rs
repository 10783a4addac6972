//! Turning an encoded screenshot into what gets saved or copied: optional
//! cropping, Base64 decoding, and the checks between them.
use vstd::prelude::*;
use crate::codec::{
    base64_decode, base64_encode, crop_image, decode_failure_prefix,
    decoded_image, decoded_model, encode_failure_prefix, encode_png, fits_budget, load_failure_prefix,
    load_image, load_rgba, png_of, png_side_ok, valid_layout, RgbaFrame,
};
use crate::base64_text::{base64_decoded, base64_encoded, lemma_base64_round_trip};
use crate::raster::{lemma_rect_of_rect, lemma_whole_rect, sub_rect};
use crate::text::{decimal, has_prefix, push_decimal};

verus! {

/// A region of an image: its top-left corner and its size, in pixels.
#[derive(Debug, Clone, Copy)]
pub struct CropRect {
    pub x: u32,
    pub y: u32,
    pub width: u32,
    pub height: u32,
}

/// The region lies inside a `width` x `height` image (edges computed
/// without overflow).
pub open spec fn crop_fits(c: CropRect, width: u32, height: u32) -> bool {
    c.x + c.width <= width && c.y + c.height <= height
}

/// The message for a region that does not lie inside a `width` x `height`
/// image: `Crop region (x,y,w,h) out of bounds (width,height)`.
pub open spec fn out_of_bounds_message(c: CropRect, width: u32, height: u32) -> Seq<char> {
    "Crop region ("@ + decimal(c.x as nat) + ","@ + decimal(c.y as nat) + ","@ + decimal(
        c.width as nat,
    ) + ","@ + decimal(c.height as nat) + ") out of bounds ("@ + decimal(width as nat) + ","@
        + decimal(height as nat) + ")"@
}

/// The image (layout and samples) in the file whose Base64 text is `text`.
pub open spec fn source_model(text: Seq<char>) -> Option<(u8, u8, u32, u32, Seq<u8>)> {
    match base64_decoded(text) {
        Some(bytes) => decoded_model(bytes),
        None => None,
    }
}

/// The image has 8-bit samples (one byte per channel).
pub open spec fn eight_bit(m: (u8, u8, u32, u32, Seq<u8>)) -> bool {
    m.1 == m.0
}

/// The image has 16-bit samples.
pub open spec fn sixteen_bit(m: (u8, u8, u32, u32, Seq<u8>)) -> bool {
    m.1 == 2 * m.0
}

/// The image has 32-bit float samples, which PNG cannot hold.
pub open spec fn float_samples(m: (u8, u8, u32, u32, Seq<u8>)) -> bool {
    m.1 == 4 * m.0
}

/// The samples of region `c` of image `m`, row by row.
pub open spec fn region_samples(m: (u8, u8, u32, u32, Seq<u8>), c: CropRect) -> Seq<u8> {
    sub_rect(m.4, m.2 as int, m.1 as int, c.x as int, c.y as int, c.width as int, c.height as int)
}

/// The PNG file of region `c` of the image in `text`, for an image with
/// 8-bit samples.
pub open spec fn region_png(text: Seq<char>, c: CropRect) -> Option<Seq<u8>> {
    match source_model(text) {
        Some(m) => png_of(m.0, c.width, c.height, region_samples(m, c)),
        None => None,
    }
}

/// The shifted region: `inner` taken within region `outer`.
pub open spec fn nested(outer: CropRect, inner: CropRect) -> CropRect {
    CropRect {
        x: (outer.x + inner.x) as u32,
        y: (outer.y + inner.y) as u32,
        width: inner.width,
        height: inner.height,
    }
}

/// How cropping the Base64 text `text` to `c` turns out, up to encoding the
/// cut-out region.
pub enum CropVerdict {
    /// The text is not Base64.
    NotBase64,
    /// The decoded bytes are not an image.
    NotImage,
    /// The region does not lie inside the image of this size.
    OutOfBounds(u32, u32),
    /// The region lies inside the image.
    Inside,
}

/// The verdict for cropping `text` to `c`.
pub open spec fn crop_verdict(text: Seq<char>, c: CropRect) -> CropVerdict {
    match base64_decoded(text) {
        None => CropVerdict::NotBase64,
        Some(bytes) => match decoded_model(bytes) {
            None => CropVerdict::NotImage,
            Some(m) => if crop_fits(c, m.2, m.3) {
                CropVerdict::Inside
            } else {
                CropVerdict::OutOfBounds(m.2, m.3)
            },
        },
    }
}

/// `png` is an image file of region `c` of the image in `text`: within the
/// decode budget it reads back with the source's layout, the region's size
/// and, for 8-bit samples, exactly the region's samples.
pub open spec fn shows_region(png: Seq<u8>, text: Seq<char>, c: CropRect) -> bool {
    source_model(text) matches Some(m) && (fits_budget(c.width, c.height, m.1 as int) ==> (
    decoded_model(png) matches Some(d) && d.0 == m.0 && d.1 == m.1 && d.2 == c.width && d.3
        == c.height && (eight_bit(m) ==> d.4 == region_samples(m, c))))
}

/// `out` is what cropping `text` to `c` returns on success: the Base64 text
/// of a PNG file of the region, cut from an image whose layout the `image`
/// crate holds.
pub open spec fn crops_to(text: Seq<char>, c: CropRect, out: Seq<char>) -> bool {
    &&& crop_verdict(text, c) == CropVerdict::Inside
    &&& source_model(text) matches Some(m) && (eight_bit(m) ==> valid_layout(m))
    &&& base64_decoded(out) matches Some(png)
    &&& out == base64_encoded(png)
    &&& shows_region(png, text, c)
}

/// `msg` reports a failure that the verdict names (or, for a region inside
/// the image, a failure to encode it).
pub open spec fn reports(verdict: CropVerdict, c: CropRect, msg: Seq<char>) -> bool {
    match verdict {
        CropVerdict::NotBase64 => has_prefix(msg, decode_failure_prefix()),
        CropVerdict::NotImage => has_prefix(msg, load_failure_prefix()),
        CropVerdict::OutOfBounds(w, h) => msg == out_of_bounds_message(c, w, h),
        CropVerdict::Inside => has_prefix(msg, encode_failure_prefix()),
    }
}

/// Builds the out-of-bounds message.
fn out_of_bounds_text(c: &CropRect, width: u32, height: u32) -> (res: String)
    ensures
        res@ == out_of_bounds_message(*c, width, height),
{
    proof {
        reveal_strlit("Crop region (");
        reveal_strlit(",");
        reveal_strlit(") out of bounds (");
        reveal_strlit(")");
    }
    let mut s = String::from_str("Crop region (");
    push_decimal(&mut s, c.x as u64);
    s.append(",");
    push_decimal(&mut s, c.y as u64);
    s.append(",");
    push_decimal(&mut s, c.width as u64);
    s.append(",");
    push_decimal(&mut s, c.height as u64);
    s.append(") out of bounds (");
    push_decimal(&mut s, width as u64);
    s.append(",");
    push_decimal(&mut s, height as u64);
    s.append(")");
    s
}

/// Cuts the region `crop` out of the image whose file is Base64-encoded in
/// `image_base64`, and returns the region as a Base64-encoded PNG file.
///
/// Fails, in this order of checks, when the text is not Base64, when its
/// bytes are not an image, when the region does not lie inside the image,
/// and when the region cannot be encoded. For an image with 8-bit samples
/// the result is the Base64 text of the region's named PNG file; for 8-bit
/// and 16-bit samples a non-empty region is always written.
pub fn crop_base64(image_base64: &str, crop: &CropRect) -> (res: Result<String, String>)
    ensures
        match res {
            Ok(text) => crops_to(image_base64@, *crop, text@),
            Err(msg) => reports(crop_verdict(image_base64@, *crop), *crop, msg@),
        },
        crop_verdict(image_base64@, *crop) != CropVerdict::Inside ==> res is Err,
        crop_verdict(image_base64@, *crop) == CropVerdict::Inside ==> match source_model(image_base64@) {
            Some(m) => {
                &&& eight_bit(m) ==> match region_png(image_base64@, *crop) {
                    Some(p) => res matches Ok(t) && t@ == base64_encoded(p) && base64_decoded(t@) == Some(p),
                    None => res is Err,
                }
                &&& (eight_bit(m) || sixteen_bit(m)) && png_side_ok(crop.width, crop.height) ==> res is Ok
                &&& float_samples(m) ==> res is Err
            },
            None => false,
        },
{
    let png_data = base64_decode(image_base64)?;
    let img = load_image(png_data.as_slice())?;
    let img_w = img.width();
    let img_h = img.height();
    if crop.x as u64 + crop.width as u64 > img_w as u64 || crop.y as u64 + crop.height as u64 > img_h as u64 {
        return Err(out_of_bounds_text(crop, img_w, img_h));
    }
    let cropped = crop_image(&img, crop.x, crop.y, crop.width, crop.height);
    let buf = encode_png(&cropped)?;
    let text = base64_encode(buf.as_slice());
    proof {
        lemma_base64_round_trip(buf@);
    }
    Ok(text)
}

/// Cropping the whole image gives back the same image: the same layout and,
/// for 8-bit samples within the decode budget, the same samples.
pub proof fn law_whole_region_is_identity(text: Seq<char>, c: CropRect, out: Seq<char>)
    requires
        crops_to(text, c, out),
        c.x == 0,
        c.y == 0,
        source_model(text) matches Some(m) && eight_bit(m) && c.width == m.2
            && c.height == m.3 && fits_budget(m.2, m.3, m.1 as int),
    ensures
        source_model(out) == source_model(text),
{
    let m = source_model(text).unwrap();
    let png = base64_decoded(out).unwrap();
    lemma_whole_rect(m.4, m.2 as int, m.3 as int, m.1 as int);
    assert(region_samples(m, c) == m.4);
    let d = decoded_model(png).unwrap();
    assert(d == m);
}

/// Cropping a cut-out again is one crop with the offsets added: the second
/// region lies inside the image, and both crops have the same PNG file (for
/// 8-bit samples within the decode budget).
pub proof fn law_crop_of_crop(text: Seq<char>, outer: CropRect, out: Seq<char>, inner: CropRect)
    requires
        crops_to(text, outer, out),
        source_model(text) matches Some(m) && eight_bit(m) && fits_budget(
            outer.width,
            outer.height,
            m.1 as int,
        ),
        inner.x + inner.width <= outer.width,
        inner.y + inner.height <= outer.height,
    ensures
        crop_verdict(out, inner) == CropVerdict::Inside,
        crop_verdict(text, nested(outer, inner)) == CropVerdict::Inside,
        source_model(out) matches Some(d) && eight_bit(d),
        region_png(out, inner) == region_png(text, nested(outer, inner)),
{
    let m = source_model(text).unwrap();
    let png = base64_decoded(out).unwrap();
    let d = decoded_model(png).unwrap();
    let both = nested(outer, inner);
    lemma_rect_of_rect(
        m.4,
        m.2 as int,
        m.1 as int,
        outer.x as int,
        outer.y as int,
        outer.width as int,
        outer.height as int,
        inner.x as int,
        inner.y as int,
        inner.width as int,
        inner.height as int,
    );
    assert(region_samples(d, inner) == region_samples(m, both));
}

/// The image file that saving the Base64 text `text` uncropped writes.
pub open spec fn saved_file(text: Seq<char>) -> Option<Seq<u8>> {
    base64_decoded(text)
}

/// The image file to save or copy: the Base64 text decoded, after cutting
/// out `crop` if one is given (the decoding of what `crop_base64` returns).
///
/// Without a region this fails exactly when the text is not Base64, and
/// re-encoding the file gives the text back. With a region it fails as
/// `crop_base64` does, and otherwise yields the region's PNG file.
#[verifier::rlimit(30)]
pub fn screenshot_png(image_base64: &str, crop: Option<CropRect>) -> (res: Result<Vec<u8>, String>)
    ensures
        crop is None ==> match saved_file(image_base64@) {
            Some(png) => res matches Ok(v) && v@ == png && base64_encoded(png) == image_base64@,
            None => res matches Err(msg) && has_prefix(msg@, decode_failure_prefix()),
        },
        crop matches Some(c) ==> match res {
            Ok(v) => crop_verdict(image_base64@, c) == CropVerdict::Inside && shows_region(
                v@,
                image_base64@,
                c,
            ),
            Err(msg) => reports(crop_verdict(image_base64@, c), c, msg@),
        },
        crop matches Some(c) ==> (crop_verdict(image_base64@, c) != CropVerdict::Inside ==> res is Err),
        crop matches Some(c) ==> (res matches Ok(v) ==> exists|t: Seq<char>|
            crops_to(image_base64@, c, t) && #[trigger] base64_decoded(t) == Some(v@)),
        crop matches Some(c) ==> (crop_verdict(image_base64@, c) == CropVerdict::Inside ==> match source_model(
            image_base64@,
        ) {
            Some(m) => {
                &&& eight_bit(m) ==> match region_png(image_base64@, c) {
                    Some(p) => res matches Ok(v) && v@ == p,
                    None => res is Err,
                }
                &&& (eight_bit(m) || sixteen_bit(m)) && png_side_ok(c.width, c.height) ==> res is Ok
                &&& float_samples(m) ==> res is Err
            },
            None => false,
        }),
{
    match crop {
        Some(c) => {
            match crop_base64(image_base64, &c) {
                Err(msg) => Err(msg),
                Ok(cropped) => {
                    let ghost png = base64_decoded(cropped@).unwrap();
                    let r = base64_decode(cropped.as_str());
                    assert(r matches Ok(v) && v@ == png);
                    assert(crops_to(image_base64@, c, cropped@) && base64_decoded(cropped@) == Some(png));
                    r
                },
            }
        },
        None => base64_decode(image_base64),
    }
}

/// The RGBA image that copying the Base64 text `text` uncropped places on
/// the clipboard.
pub open spec fn clipboard_image(text: Seq<char>) -> Option<(u32, u32, Seq<u8>)> {
    match base64_decoded(text) {
        Some(png) => decoded_image(png),
        None => None,
    }
}

/// The RGBA image to place on the clipboard: the file that
/// `screenshot_png` yields, decoded to 8-bit RGBA.
///
/// Without a region this is the image of the decoded text, and fails with
/// the decode or load message where there is none. With a region it fails
/// as `crop_base64` does; within the decode budget the cut-out always reads
/// back, at the region's size, and for an RGBA source with 8-bit samples
/// its pixels are exactly the region's.
pub fn clipboard_frame(image_base64: &str, crop: Option<CropRect>) -> (res: Result<RgbaFrame, String>)
    ensures
        res matches Ok(f) ==> f.pixels@.len() == f.width * f.height * 4,
        crop is None ==> match base64_decoded(image_base64@) {
            None => res matches Err(msg) && has_prefix(msg@, decode_failure_prefix()),
            Some(png) => match decoded_image(png) {
                Some((w, h, px)) => res matches Ok(f) && f.width == w && f.height == h && f.pixels@ == px,
                None => res matches Err(msg) && has_prefix(msg@, load_failure_prefix()),
            },
        },
        crop matches Some(c) ==> match res {
            Ok(f) => crop_verdict(image_base64@, c) == CropVerdict::Inside && (source_model(image_base64@) matches Some(m)
                && (fits_budget(c.width, c.height, m.1 as int) ==> f.width == c.width && f.height == c.height
                && (m.0 == 4 && m.1 == 4 ==> f.pixels@ == region_samples(m, c)))),
            Err(msg) => reports(crop_verdict(image_base64@, c), c, msg@) || (crop_verdict(
                image_base64@,
                c,
            ) == CropVerdict::Inside && (source_model(image_base64@) matches Some(m) && !fits_budget(
                c.width,
                c.height,
                m.1 as int,
            )) && has_prefix(msg@, load_failure_prefix())),
        },
        crop matches Some(c) ==> (crop_verdict(image_base64@, c) != CropVerdict::Inside ==> res is Err),
        crop matches Some(c) ==> (crop_verdict(image_base64@, c) == CropVerdict::Inside && (source_model(
            image_base64@,
        ) matches Some(m) && (eight_bit(m) || sixteen_bit(m)) && fits_budget(c.width, c.height, m.1 as int))
            && png_side_ok(c.width, c.height) ==> res is Ok),
        crop matches Some(c) ==> (res matches Ok(f) ==> exists|t: Seq<char>|
            crops_to(image_base64@, c, t) && #[trigger] clipboard_image(t) == Some((f.width, f.height, f.pixels@))),
        crop matches Some(c) ==> (res matches Ok(f) ==> (source_model(image_base64@) matches Some(m) && eight_bit(m)
            ==> (region_png(image_base64@, c) matches Some(p) && decoded_image(p) == Some((f.width, f.height, f.pixels@))))),
{
    let png_data = screenshot_png(image_base64, crop)?;
    let res = load_rgba(png_data.as_slice());
    proof {
        if let Some(c) = crop {
            if res is Ok {
                let f = res.unwrap();
                let t = choose|t: Seq<char>| crops_to(image_base64@, c, t) && #[trigger] base64_decoded(t) == Some(png_data@);
                assert(clipboard_image(t) == Some((f.width, f.height, f.pixels@)));
            }
        }
    }
    res
}

/// The file name a screenshot taken at `timestamp` is saved under by
/// default: `screenshot_<timestamp>.png`.
pub open spec fn default_name(timestamp: Seq<char>) -> Seq<char> {
    "screenshot_"@ + timestamp + ".png"@
}

/// The default name is `screenshot_`, then the whole timestamp, character
/// for character, then `.png`.
pub proof fn law_default_name_holds_timestamp(timestamp: Seq<char>)
    ensures
        default_name(timestamp).len() == timestamp.len() + 15,
        default_name(timestamp).subrange(0, 11) == "screenshot_"@,
        default_name(timestamp).subrange(11, 11 + timestamp.len() as int) == timestamp,
        default_name(timestamp).subrange(11 + timestamp.len() as int, timestamp.len() as int + 15) == ".png"@,
{
    reveal_strlit("screenshot_");
    reveal_strlit(".png");
    let n = default_name(timestamp);
    assert(n.subrange(0, 11) =~= "screenshot_"@);
    assert(n.subrange(11, 11 + timestamp.len() as int) =~= timestamp);
    assert(n.subrange(11 + timestamp.len() as int, timestamp.len() as int + 15) =~= ".png"@);
}

/// The default file name for a screenshot taken at `timestamp`.
pub fn default_file_name(timestamp: &str) -> (res: String)
    ensures
        res@ == default_name(timestamp@),
{
    let mut name = String::from_str("screenshot_");
    name.append(timestamp);
    name.append(".png");
    name
}

/// The message when the save dialog is dismissed without a path.
pub open spec fn cancelled_message() -> Seq<char> {
    "用户取消了保存"@
}

/// The path chosen in the save dialog; an empty path means the dialog was
/// dismissed, and saving is abandoned.
pub fn chosen_path(path: String) -> (res: Result<String, String>)
    ensures
        path@.len() == 0 ==> (res matches Err(msg) && msg@ == cancelled_message()),
        path@.len() != 0 ==> res == Ok::<String, String>(path),
{
    if path.as_str().is_empty() {
        Err(String::from_str("用户取消了保存"))
    } else {
        Ok(path)
    }
}

} // verus!
