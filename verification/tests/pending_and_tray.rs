use t2screenshot::pending::PendingCapture;
use t2screenshot::tray::{global_shortcut, tray_action, tray_menu, TrayAction};

#[test]
fn empty_slot_reports_no_capture() {
    let mut slot: PendingCapture<u32> = PendingCapture::new();
    assert_eq!(slot.take(), Err("No pending capture".to_string()));
}

#[test]
fn stored_capture_is_collected_once() {
    let mut slot = PendingCapture::new();
    slot.store("first".to_string());
    assert_eq!(slot.take(), Ok("first".to_string()));
    assert_eq!(slot.take(), Err("No pending capture".to_string()));
}

#[test]
fn later_capture_replaces_earlier() {
    let mut slot = PendingCapture::new();
    slot.store(1u8);
    slot.store(2u8);
    assert_eq!(slot.take(), Ok(2u8));
}

#[test]
fn tray_entries_dispatch() {
    assert_eq!(tray_action("capture", false), TrayAction::Capture);
    assert_eq!(tray_action("quit", true), TrayAction::Quit);
    assert_eq!(tray_action("open_permissions", true), TrayAction::OpenAccessibilitySettings);
    assert_eq!(tray_action("open_permissions", false), TrayAction::Nothing);
    assert_eq!(tray_action("open_screen_recording", true), TrayAction::OpenScreenRecordingSettings);
    assert_eq!(tray_action("open_screen_recording", false), TrayAction::Nothing);
    assert_eq!(tray_action("other", true), TrayAction::Nothing);
    assert_eq!(tray_action("", false), TrayAction::Nothing);
}

#[test]
fn tray_menu_depends_on_platform() {
    let mac: Vec<&str> = tray_menu(true).iter().map(|e| e.id).collect();
    assert_eq!(mac, vec!["capture", "open_permissions", "open_screen_recording", "quit"]);
    let other: Vec<&str> = tray_menu(false).iter().map(|e| e.id).collect();
    assert_eq!(other, vec!["capture", "quit"]);
    assert_eq!(tray_menu(false)[0].label, "截图");
    assert_eq!(tray_menu(false)[1].label, "退出");
    for entry in tray_menu(true) {
        assert_ne!(tray_action(entry.id, true), TrayAction::Nothing);
    }
    for entry in tray_menu(false) {
        assert_ne!(tray_action(entry.id, false), TrayAction::Nothing);
    }
}

#[test]
fn shortcut_per_platform() {
    assert_eq!(global_shortcut(true), "Cmd+Shift+A");
    assert_eq!(global_shortcut(false), "Alt+Shift+A");
}
