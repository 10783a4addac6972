use t2screenshot::capture::capture_base64;
use t2screenshot::save::{chosen_path, clipboard_frame, crop_base64, default_file_name, screenshot_png, CropRect};

/// A 3 x 2 RGBA image whose pixel (x, y) has red = 10 * x + y.
fn sample_pixels() -> Vec<u8> {
    let mut px = Vec::new();
    for y in 0..2u8 {
        for x in 0..3u8 {
            px.extend_from_slice(&[10 * x + y, 7, 200, 255]);
        }
    }
    px
}

fn sample_text() -> String {
    capture_base64(3, 2, sample_pixels()).expect("encodes")
}

#[test]
fn base64_text_is_decoded_for_saving() {
    assert_eq!(screenshot_png("aGVsbG8=", None).unwrap(), b"hello".to_vec());
    assert_eq!(screenshot_png("", None).unwrap(), Vec::<u8>::new());
    let err = screenshot_png("not base64!", None).unwrap_err();
    assert!(err.starts_with("Failed to decode base64: "), "{}", err);
}

#[test]
fn capture_is_encoded_as_png() {
    let text = sample_text();
    assert_ne!(text.as_bytes(), &sample_pixels()[..]);
    let png = screenshot_png(&text, None).unwrap();
    assert_eq!(&png[..8], &[0x89, b'P', b'N', b'G', 0x0d, 0x0a, 0x1a, 0x0a]);
}

#[test]
fn capture_reaches_clipboard_unchanged() {
    let frame = clipboard_frame(&sample_text(), None).unwrap();
    assert_eq!((frame.width, frame.height), (3, 2));
    assert_eq!(frame.pixels, sample_pixels());
}

#[test]
fn empty_capture_fails_to_encode() {
    let err = capture_base64(0, 0, Vec::new()).unwrap_err();
    assert!(err.starts_with("Failed to encode PNG: "), "{}", err);
}

#[test]
fn crop_inside_keeps_requested_size() {
    let crop = CropRect { x: 1, y: 0, width: 2, height: 2 };
    let text = crop_base64(&sample_text(), &crop).unwrap();
    let frame = clipboard_frame(&text, None).unwrap();
    assert_eq!((frame.width, frame.height), (2, 2));
    assert_eq!(frame.pixels[0], 10);
    assert_eq!(frame.pixels[4], 20);
    assert_eq!(frame.pixels[8], 11);
    let png = screenshot_png(&sample_text(), Some(crop)).unwrap();
    assert_eq!(&png[1..4], b"PNG");
    let framed = clipboard_frame(&sample_text(), Some(crop)).unwrap();
    assert_eq!(framed.pixels, frame.pixels);
}

#[test]
fn crop_of_whole_image_is_whole_image() {
    let crop = CropRect { x: 0, y: 0, width: 3, height: 2 };
    let frame = clipboard_frame(&sample_text(), Some(crop)).unwrap();
    assert_eq!(frame.pixels, sample_pixels());
}

#[test]
fn crop_outside_is_refused() {
    let crop = CropRect { x: 2, y: 1, width: 2, height: 2 };
    assert_eq!(
        crop_base64(&sample_text(), &crop).unwrap_err(),
        "Crop region (2,1,2,2) out of bounds (3,2)"
    );
    assert_eq!(
        screenshot_png(&sample_text(), Some(crop)).unwrap_err(),
        "Crop region (2,1,2,2) out of bounds (3,2)"
    );
    let tall = CropRect { x: 0, y: 0, width: 3, height: 3 };
    assert_eq!(
        clipboard_frame(&sample_text(), Some(tall)).unwrap_err(),
        "Crop region (0,0,3,3) out of bounds (3,2)"
    );
}

#[test]
fn crop_errors_follow_the_pipeline() {
    let crop = CropRect { x: 0, y: 0, width: 1, height: 1 };
    let err = crop_base64("%%%", &crop).unwrap_err();
    assert!(err.starts_with("Failed to decode base64: "), "{}", err);
    let err = crop_base64("aGVsbG8=", &crop).unwrap_err();
    assert!(err.starts_with("Failed to load image: "), "{}", err);
    let err = clipboard_frame("aGVsbG8=", None).unwrap_err();
    assert!(err.starts_with("Failed to load image: "), "{}", err);
    let empty = CropRect { x: 1, y: 1, width: 0, height: 0 };
    let err = crop_base64(&sample_text(), &empty).unwrap_err();
    assert!(err.starts_with("Failed to encode PNG: "), "{}", err);
}

#[test]
fn file_names_and_dialog_paths() {
    assert_eq!(default_file_name("20240131_235959"), "screenshot_20240131_235959.png");
    assert_eq!(default_file_name(""), "screenshot_.png");
    assert_eq!(chosen_path(String::new()), Err("用户取消了保存".to_string()));
    assert_eq!(chosen_path("/tmp/a.png".to_string()), Ok("/tmp/a.png".to_string()));
}
