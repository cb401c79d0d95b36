use onscreen_ocr::keys::{key_action, KeyAction, OverlayKey, SettingToggle};

#[test]
fn arrows_move_by_modifier_distance() {
    assert_eq!(key_action(OverlayKey::ArrowDown, true, false, false, false), KeyAction::MoveSelection(0, 10));
    assert_eq!(key_action(OverlayKey::ArrowUp, true, false, true, false), KeyAction::MoveSelection(0, -1));
    assert_eq!(key_action(OverlayKey::ArrowLeft, true, false, false, true), KeyAction::MoveSelection(-50, 0));
    assert_eq!(key_action(OverlayKey::ArrowRight, true, true, true, true), KeyAction::MoveSelection(1, 0));
    assert_eq!(key_action(OverlayKey::ArrowRight, false, false, false, false), KeyAction::Nothing);
}

#[test]
fn modifiers_track_press_and_release() {
    assert_eq!(key_action(OverlayKey::Shift, true, false, false, false), KeyAction::SetShiftHeld(true));
    assert_eq!(key_action(OverlayKey::Shift, false, false, true, false), KeyAction::SetShiftHeld(false));
    assert_eq!(key_action(OverlayKey::Control, false, false, false, true), KeyAction::SetCtrlHeld(false));
    assert_eq!(key_action(OverlayKey::Escape, false, false, false, false), KeyAction::HideWindow);
}

#[test]
fn ctrl_z_and_ctrl_y_undo_and_redo() {
    assert_eq!(key_action(OverlayKey::Character('z'), true, false, false, true), KeyAction::Undo);
    assert_eq!(key_action(OverlayKey::Character('y'), true, false, false, true), KeyAction::Redo);
    assert_eq!(key_action(OverlayKey::Character('z'), true, false, false, false), KeyAction::Nothing);
    assert_eq!(key_action(OverlayKey::Character('z'), false, false, false, true), KeyAction::Nothing);
}

#[test]
fn copy_and_screenshot_keys() {
    assert_eq!(key_action(OverlayKey::Character('c'), true, false, false, true), KeyAction::CopyKey { held: true, attempt: true });
    assert_eq!(key_action(OverlayKey::Character('c'), false, false, false, false), KeyAction::CopyKey { held: false, attempt: false });
    assert_eq!(key_action(OverlayKey::Character('s'), true, true, false, false), KeyAction::ScreenshotKey { held: true, attempt: true });
}

#[test]
fn number_keys_toggle_once_per_press() {
    assert_eq!(key_action(OverlayKey::Character('1'), true, false, false, false), KeyAction::ToggleSetting(SettingToggle::MaintainNewline));
    assert_eq!(key_action(OverlayKey::Character('4'), true, false, false, false), KeyAction::ToggleSetting(SettingToggle::AddPilcrowInPreview));
    assert_eq!(key_action(OverlayKey::Character('2'), true, true, false, false), KeyAction::Nothing);
    assert_eq!(key_action(OverlayKey::Character('5'), true, false, false, false), KeyAction::Nothing);
    assert_eq!(key_action(OverlayKey::Tab, true, false, false, false), KeyAction::TogglePolygonMode);
    assert_eq!(key_action(OverlayKey::Tab, false, false, false, false), KeyAction::Nothing);
    assert_eq!(key_action(OverlayKey::Other, true, false, false, false), KeyAction::Nothing);
}

#[test]
fn release_triggers_no_one_off_action() {
    for key in [OverlayKey::Tab, OverlayKey::ArrowUp, OverlayKey::Character('z'), OverlayKey::Character('3')] {
        assert_eq!(key_action(key, false, false, false, true), KeyAction::Nothing);
    }
}
