use t2screenshot::overlay::{after_capture, is_overlay_label, overlay_label, overlay_labels, ScreenshotStep};
use t2screenshot::text::{contains_str, decimal_string, same_text, starts_with_str};

#[test]
fn decimal_renders_without_leading_zeros() {
    assert_eq!(decimal_string(0), "0");
    assert_eq!(decimal_string(7), "7");
    assert_eq!(decimal_string(10), "10");
    assert_eq!(decimal_string(12345), "12345");
    assert_eq!(decimal_string(u64::MAX), "18446744073709551615");
}

#[test]
fn substring_and_prefix_tests() {
    assert!(contains_str("My T2Screenshot Overlay", "T2Screenshot"));
    assert!(!contains_str("T2Screensho", "T2Screenshot"));
    assert!(contains_str("abc", ""));
    assert!(contains_str("", ""));
    assert!(!contains_str("", "a"));
    assert!(contains_str("截图 T2Screenshot", "T2Screenshot"));
    assert!(starts_with_str("overlay-3", "overlay"));
    assert!(!starts_with_str("overla", "overlay"));
    assert!(!starts_with_str("Overlay-1", "overlay"));
    assert!(same_text("quit", "quit"));
    assert!(!same_text("quit", "quits"));
}

#[test]
fn overlay_labels_are_numbered() {
    assert_eq!(overlay_label(0), "overlay-0");
    assert_eq!(overlay_label(42), "overlay-42");
    assert_eq!(overlay_label(u64::MAX), "overlay-18446744073709551615");
}

#[test]
fn new_overlay_labels_are_found_again() {
    for n in [0u64, 1, 9, 10, 99, 100, 123456789] {
        assert!(is_overlay_label(&overlay_label(n)));
    }
}

#[test]
fn overlay_labels_are_unique() {
    let labels: Vec<String> = (0u64..300).map(overlay_label).collect();
    for i in 0..labels.len() {
        for j in 0..labels.len() {
            if i != j {
                assert_ne!(labels[i], labels[j]);
            }
        }
    }
}

#[test]
fn only_overlay_windows_are_selected() {
    assert!(is_overlay_label("overlay"));
    assert!(is_overlay_label("overlay-7"));
    assert!(!is_overlay_label("main"));
    assert!(!is_overlay_label("Overlay-7"));
    assert!(!is_overlay_label(""));
    let labels = vec![
        "main".to_string(),
        "overlay-2".to_string(),
        "settings".to_string(),
        "overlay-0".to_string(),
        "my-overlay".to_string(),
    ];
    assert_eq!(overlay_labels(&labels), vec!["overlay-2".to_string(), "overlay-0".to_string()]);
    assert!(overlay_labels(&Vec::new()).is_empty());
}

#[test]
fn capture_outcome_decides_next_step() {
    assert_eq!(after_capture(Some((1440, 900))), ScreenshotStep::OpenOverlay { width: 1440, height: 900 });
    assert_eq!(after_capture(None), ScreenshotStep::RestoreMainWindow);
}
