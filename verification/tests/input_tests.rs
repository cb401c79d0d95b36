use onscreen_ocr::input::{InputHandler, KeybindState};
use onscreen_ocr::settings::Keybind;

#[test]
fn new_handler_is_idle() {
    let mut h = InputHandler::new();
    assert_eq!(h.keybind_state(), KeybindState::Idle);
    assert_eq!(h.check_for_detected_keybind(), None);
}

#[test]
fn detected_keybind_is_reported_once() {
    let mut h = InputHandler::new();
    h.detect_next_keybind();
    assert_eq!(h.keybind_state(), KeybindState::WaitingForKeybind);
    assert_eq!(h.check_for_detected_keybind(), None);
    let k = Keybind { ctrl: true, shift: false, alt: false, meta: false, key: 'k' };
    h.key_released(k);
    assert_eq!(h.check_for_detected_keybind(), Some(k));
    assert_eq!(h.keybind_state(), KeybindState::Idle);
    assert_eq!(h.check_for_detected_keybind(), None);
}

#[test]
fn stop_detecting_returns_to_idle() {
    let mut h = InputHandler::new();
    h.detect_next_keybind();
    h.stop_detecting_keybind();
    assert_eq!(h.keybind_state(), KeybindState::Idle);
}
