//! The tray menu, its dispatch, and the global shortcut.
use vstd::prelude::*;
use crate::text::same_text;

verus! {

/// What choosing a tray menu entry does.
#[derive(Debug, Clone, Copy, PartialEq, Eq, Structural)]
pub enum TrayAction {
    /// Take a screenshot.
    Capture,
    /// Open the system's accessibility privacy settings (needed for the
    /// global shortcut on macOS).
    OpenAccessibilitySettings,
    /// Open the system's screen-recording privacy settings (needed for
    /// capturing other windows on macOS).
    OpenScreenRecordingSettings,
    /// Quit the application.
    Quit,
    /// Nothing.
    Nothing,
}

/// An entry of the tray menu: its identifier and its label.
pub struct MenuEntry {
    pub id: &'static str,
    pub label: &'static str,
}

/// The action for the menu entry with identifier `id`. The two settings
/// entries only act on macOS.
pub open spec fn action_for(id: Seq<char>, is_macos: bool) -> TrayAction {
    if id == "capture"@ {
        TrayAction::Capture
    } else if id == "open_permissions"@ && is_macos {
        TrayAction::OpenAccessibilitySettings
    } else if id == "open_screen_recording"@ && is_macos {
        TrayAction::OpenScreenRecordingSettings
    } else if id == "quit"@ {
        TrayAction::Quit
    } else {
        TrayAction::Nothing
    }
}

/// The action for the tray menu entry with identifier `id`.
pub fn tray_action(id: &str, is_macos: bool) -> (res: TrayAction)
    ensures
        res == action_for(id@, is_macos),
{
    if same_text(id, "capture") {
        TrayAction::Capture
    } else if same_text(id, "open_permissions") && is_macos {
        TrayAction::OpenAccessibilitySettings
    } else if same_text(id, "open_screen_recording") && is_macos {
        TrayAction::OpenScreenRecordingSettings
    } else if same_text(id, "quit") {
        TrayAction::Quit
    } else {
        TrayAction::Nothing
    }
}

/// The identifiers of the tray menu's entries, top to bottom: the settings
/// entries appear only on macOS, where the permissions they open exist.
pub open spec fn menu_ids(is_macos: bool) -> Seq<Seq<char>> {
    if is_macos {
        seq!["capture"@, "open_permissions"@, "open_screen_recording"@, "quit"@]
    } else {
        seq!["capture"@, "quit"@]
    }
}

/// The labels of the tray menu's entries, top to bottom.
pub open spec fn menu_labels(is_macos: bool) -> Seq<Seq<char>> {
    if is_macos {
        seq!["截图"@, "打开快捷键权限设置…"@, "打开屏幕录制权限设置…"@, "退出"@]
    } else {
        seq!["截图"@, "退出"@]
    }
}

/// The tray menu's entries, top to bottom.
pub fn tray_menu(is_macos: bool) -> (res: Vec<MenuEntry>)
    ensures
        res@.len() == menu_ids(is_macos).len(),
        forall|i: int| 0 <= i < res@.len() ==> (#[trigger] res@[i]).id@ == menu_ids(is_macos)[i]
            && res@[i].label@ == menu_labels(is_macos)[i],
{
    let mut entries: Vec<MenuEntry> = Vec::new();
    entries.push(MenuEntry { id: "capture", label: "截图" });
    if is_macos {
        entries.push(MenuEntry { id: "open_permissions", label: "打开快捷键权限设置…" });
        entries.push(MenuEntry { id: "open_screen_recording", label: "打开屏幕录制权限设置…" });
    }
    entries.push(MenuEntry { id: "quit", label: "退出" });
    entries
}

/// The global shortcut that starts a screenshot.
pub open spec fn shortcut_for(is_macos: bool) -> Seq<char> {
    if is_macos {
        "Cmd+Shift+A"@
    } else {
        "Alt+Shift+A"@
    }
}

/// The global shortcut that starts a screenshot: Cmd+Shift+A on macOS,
/// Alt+Shift+A elsewhere.
pub fn global_shortcut(is_macos: bool) -> (res: &'static str)
    ensures
        res@ == shortcut_for(is_macos),
{
    if is_macos {
        "Cmd+Shift+A"
    } else {
        "Alt+Shift+A"
    }
}

/// Every entry of the tray menu has an action on the platform that shows
/// it.
pub proof fn law_menu_entries_act(is_macos: bool, i: int)
    requires
        0 <= i < menu_ids(is_macos).len(),
    ensures
        action_for(menu_ids(is_macos)[i], is_macos) != TrayAction::Nothing,
{
    reveal_strlit("capture");
    reveal_strlit("open_permissions");
    reveal_strlit("open_screen_recording");
    reveal_strlit("quit");
}

/// The quit entry quits and the capture entry captures, on every platform.
pub proof fn law_quit_and_capture_everywhere(is_macos: bool)
    ensures
        action_for("quit"@, is_macos) == TrayAction::Quit,
        action_for("capture"@, is_macos) == TrayAction::Capture,
{
    reveal_strlit("capture");
    reveal_strlit("open_permissions");
    reveal_strlit("open_screen_recording");
    reveal_strlit("quit");
    assert("capture"@.len() == 7 && "quit"@.len() == 4);
    assert("open_permissions"@.len() == 16 && "open_screen_recording"@.len() == 21);
}

/// The platform only decides whether the two settings entries act: every
/// other identifier gets the same action on macOS and elsewhere.
pub proof fn law_platform_only_affects_settings(id: Seq<char>)
    requires
        id != "open_permissions"@,
        id != "open_screen_recording"@,
    ensures
        action_for(id, true) == action_for(id, false),
{
}

/// Each menu entry carries the label that belongs to its identifier,
/// wherever it stands in the menu: capture is 截图, the accessibility
/// settings entry is 打开快捷键权限设置…, the screen-recording settings
/// entry is 打开屏幕录制权限设置…, and quit is 退出.
pub proof fn law_labels_follow_ids(is_macos: bool, i: int)
    requires
        0 <= i < menu_ids(is_macos).len(),
    ensures
        menu_labels(is_macos).len() == menu_ids(is_macos).len(),
        menu_ids(is_macos)[i] == "capture"@ ==> menu_labels(is_macos)[i] == "截图"@,
        menu_ids(is_macos)[i] == "open_permissions"@
            ==> menu_labels(is_macos)[i] == "打开快捷键权限设置…"@,
        menu_ids(is_macos)[i] == "open_screen_recording"@
            ==> menu_labels(is_macos)[i] == "打开屏幕录制权限设置…"@,
        menu_ids(is_macos)[i] == "quit"@ ==> menu_labels(is_macos)[i] == "退出"@,
{
    reveal_strlit("capture");
    reveal_strlit("open_permissions");
    reveal_strlit("open_screen_recording");
    reveal_strlit("quit");
    assert("capture"@.len() == 7 && "quit"@.len() == 4);
    assert("open_permissions"@.len() == 16 && "open_screen_recording"@.len() == 21);
    if is_macos {
        if i == 0 {
        } else if i == 1 {
        } else if i == 2 {
        } else {
        }
    } else {
        if i == 0 {
        } else {
        }
    }
}

} // verus!
