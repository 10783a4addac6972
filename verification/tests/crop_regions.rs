use base64::Engine;
use t2screenshot::capture::capture_base64;
use t2screenshot::save::{clipboard_frame, crop_base64, screenshot_png, CropRect};

fn b64(bytes: &[u8]) -> String {
    base64::engine::general_purpose::STANDARD.encode(bytes)
}

fn decode_image(text: &str) -> image::DynamicImage {
    let bytes = base64::engine::general_purpose::STANDARD.decode(text).unwrap();
    image::load_from_memory(&bytes).unwrap()
}

/// A 4 x 3 RGBA capture whose pixel (x, y) is [x, y, x + y, 200].
fn capture_text() -> String {
    let mut px = Vec::new();
    for y in 0..3u8 {
        for x in 0..4u8 {
            px.extend_from_slice(&[x, y, x + y, 200]);
        }
    }
    capture_base64(4, 3, px).unwrap()
}

/// A 3 x 2 grey image whose pixel (x, y) is 40 * y + x, as a PNG file.
fn grey_text() -> String {
    let img = image::GrayImage::from_fn(3, 2, |x, y| image::Luma([(40 * y + x) as u8]));
    let mut out = Vec::new();
    img.write_to(&mut std::io::Cursor::new(&mut out), image::ImageFormat::Png).unwrap();
    b64(&out)
}

#[test]
fn single_pixel_crop_keeps_the_pixel() {
    let text = "iVBORw0KGgoAAAANSUhEUgAAAAEAAAABCAYAAAAfFcSJAAAADUlEQVR42mNkYPhfDwAChwGA60e6kgAAAABJRU5ErkJggg==";
    let out = crop_base64(text, &CropRect { x: 0, y: 0, width: 1, height: 1 }).unwrap();
    let img = decode_image(&out);
    assert_eq!((img.width(), img.height()), (1, 1));
    assert_eq!(img.to_rgba8().get_pixel(0, 0).0, [0, 0, 255, 127]);
}

#[test]
fn crop_copies_the_requested_rectangle() {
    let out = crop_base64(&capture_text(), &CropRect { x: 1, y: 1, width: 2, height: 2 }).unwrap();
    let img = decode_image(&out).to_rgba8();
    assert_eq!(img.dimensions(), (2, 2));
    for y in 0..2u32 {
        for x in 0..2u32 {
            let (sx, sy) = ((x + 1) as u8, (y + 1) as u8);
            assert_eq!(img.get_pixel(x, y).0, [sx, sy, sx + sy, 200]);
        }
    }
}

#[test]
fn crop_keeps_the_colour_type() {
    let out = crop_base64(&grey_text(), &CropRect { x: 1, y: 0, width: 2, height: 2 }).unwrap();
    let img = decode_image(&out);
    assert_eq!(img.color(), image::ColorType::L8);
    assert_eq!(img.as_bytes(), &[1, 2, 41, 42]);
}

#[test]
fn whole_crop_reproduces_the_image() {
    let text = grey_text();
    let out = crop_base64(&text, &CropRect { x: 0, y: 0, width: 3, height: 2 }).unwrap();
    let before = decode_image(&text);
    let after = decode_image(&out);
    assert_eq!(after.color(), before.color());
    assert_eq!(after.as_bytes(), before.as_bytes());
    let capture = capture_text();
    let again = crop_base64(&capture, &CropRect { x: 0, y: 0, width: 4, height: 3 }).unwrap();
    assert_eq!(decode_image(&again).to_rgba8(), decode_image(&capture).to_rgba8());
}

#[test]
fn crop_of_crop_is_one_crop() {
    let text = capture_text();
    let first = crop_base64(&text, &CropRect { x: 1, y: 0, width: 3, height: 3 }).unwrap();
    let twice = crop_base64(&first, &CropRect { x: 1, y: 1, width: 2, height: 1 }).unwrap();
    let once = crop_base64(&text, &CropRect { x: 2, y: 1, width: 2, height: 1 }).unwrap();
    assert_eq!(twice, once);
}

#[test]
fn overflowing_region_follows_the_error_order() {
    let far = CropRect { x: u32::MAX, y: 0, width: 1, height: 1 };
    let err = crop_base64("%%%", &far).unwrap_err();
    assert!(err.starts_with("Failed to decode base64: "), "{}", err);
    let err = crop_base64("aGVsbG8=", &far).unwrap_err();
    assert!(err.starts_with("Failed to load image: "), "{}", err);
    assert_eq!(
        crop_base64(&capture_text(), &far).unwrap_err(),
        "Crop region (4294967295,0,1,1) out of bounds (4,3)"
    );
    let tall = CropRect { x: 0, y: 1, width: 1, height: u32::MAX };
    assert_eq!(
        screenshot_png(&capture_text(), Some(tall)).unwrap_err(),
        "Crop region (0,1,1,4294967295) out of bounds (4,3)"
    );
}

#[test]
fn saving_and_copying_a_region_use_the_cropped_text() {
    let text = capture_text();
    let region = CropRect { x: 2, y: 1, width: 2, height: 2 };
    let cropped = crop_base64(&text, &region).unwrap();
    assert_eq!(screenshot_png(&text, Some(region)).unwrap(), screenshot_png(&cropped, None).unwrap());
    let a = clipboard_frame(&text, Some(region)).unwrap();
    let b = clipboard_frame(&cropped, None).unwrap();
    assert_eq!((a.width, a.height, a.pixels.clone()), (b.width, b.height, b.pixels));
    assert_eq!((a.width, a.height), (2, 2));
}

#[test]
fn saved_file_reencodes_to_the_text() {
    let text = capture_text();
    let png = screenshot_png(&text, None).unwrap();
    assert_eq!(b64(&png), text);
    assert_eq!(b64(&screenshot_png("aGVsbG8=", None).unwrap()), "aGVsbG8=");
}

#[test]
fn sixteen_bit_crop_is_written_and_keeps_its_samples() {
    let img = image::ImageBuffer::<image::Luma<u16>, Vec<u16>>::from_fn(3, 2, |x, y| {
        image::Luma([(1000 * y + 300 * x) as u16])
    });
    let mut out = Vec::new();
    image::DynamicImage::ImageLuma16(img)
        .write_to(&mut std::io::Cursor::new(&mut out), image::ImageFormat::Png)
        .unwrap();
    let cropped = crop_base64(&b64(&out), &CropRect { x: 1, y: 1, width: 2, height: 1 }).unwrap();
    let back = decode_image(&cropped);
    assert_eq!(back.color(), image::ColorType::L16);
    assert_eq!(back.as_luma16().unwrap().as_raw(), &vec![1300u16, 1600]);
}
