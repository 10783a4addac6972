//! Encoding a captured screen for the frontend: the RGBA capture becomes a
//! PNG file, sent as Base64 text.
use vstd::prelude::*;
use crate::codec::{
    base64_encode, decoded_image, decoded_model, encode_failure_prefix,
    encode_rgba_png, png_side_ok, rgba_fits_budget, rgba_png,
};
use crate::base64_text::{base64_decoded, base64_encoded, lemma_base64_round_trip};
use crate::save::{clipboard_image, crop_fits, crop_verdict, saved_file, source_model, CropRect, CropVerdict};
use crate::text::has_prefix;

verus! {

/// `text` is the Base64 form of the PNG file of the RGBA capture
/// `width` x `height` with samples `pixels`; decoding it gives that file
/// back, and, within the decode budget, reading that file gives the
/// capture back.
pub open spec fn encodes_capture(text: Seq<char>, width: u32, height: u32, pixels: Seq<u8>) -> bool {
    &&& rgba_png(width, height, pixels) matches Some(png)
    &&& text == base64_encoded(png)
    &&& base64_decoded(text) == Some(png)
    &&& rgba_fits_budget(width, height) ==> decoded_image(png) == Some((width, height, pixels))
        && decoded_model(png) == Some((4u8, 4u8, width, height, pixels))
}

/// Encodes a captured screen (`width` x `height`, four 8-bit RGBA samples
/// per pixel, row by row) as a PNG file in Base64 text; this succeeds for
/// every capture with positive sides within the PNG limit.
pub fn capture_base64(width: u32, height: u32, pixels: Vec<u8>) -> (res: Result<String, String>)
    requires
        pixels@.len() == width * height * 4,
    ensures
        match rgba_png(width, height, pixels@) {
            Some(_) => res matches Ok(text) && encodes_capture(text@, width, height, pixels@),
            None => res matches Err(msg) && has_prefix(msg@, encode_failure_prefix()),
        },
        png_side_ok(width, height) ==> res is Ok,
{
    let ghost samples = pixels@;
    let png_data = encode_rgba_png(width, height, pixels)?;
    let text = base64_encode(png_data.as_slice());
    proof {
        lemma_base64_round_trip(png_data@);
    }
    assert(png_data@ == rgba_png(width, height, samples).unwrap());
    Ok(text)
}

/// Saving a capture's text uncropped writes exactly the capture's PNG file.
pub proof fn law_saved_file_is_capture_png(text: Seq<char>, width: u32, height: u32, pixels: Seq<u8>)
    requires
        encodes_capture(text, width, height, pixels),
    ensures
        saved_file(text) == rgba_png(width, height, pixels),
{
}

/// Copying a capture's text uncropped puts exactly the captured pixels on
/// the clipboard (for captures within the decode budget).
pub proof fn law_clipboard_gets_capture(text: Seq<char>, width: u32, height: u32, pixels: Seq<u8>)
    requires
        encodes_capture(text, width, height, pixels),
        rgba_fits_budget(width, height),
    ensures
        clipboard_image(text) == Some((width, height, pixels)),
{
}

/// A region inside a capture is cropped from the captured pixels
/// themselves: the capture text reads back as the RGBA capture, so the
/// cut-out's pixels (what `clipboard_frame` returns for the region) are the
/// region's pixels of the capture (within the decode budget).
pub proof fn law_crop_of_capture(text: Seq<char>, width: u32, height: u32, pixels: Seq<u8>, c: CropRect)
    requires
        encodes_capture(text, width, height, pixels),
        rgba_fits_budget(width, height),
        crop_fits(c, width, height),
    ensures
        crop_verdict(text, c) == CropVerdict::Inside,
        source_model(text) == Some((4u8, 4u8, width, height, pixels)),
{
}

} // verus!
