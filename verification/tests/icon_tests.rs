use onscreen_ocr::icon::{ButtonState, IconAtlasPositions, IconBehavior, IconState, MouseOutcome};
use onscreen_ocr::selection::Bounds;

fn icon(behavior: IconBehavior) -> IconState {
    IconState::new(Bounds::new(0, 0, 40, 40), behavior)
}

#[test]
fn click_icon_acts_on_release() {
    let mut i = icon(IconBehavior::Click);
    let down = i.mouse_event((10, 10), ButtonState::Pressed, true);
    assert_eq!(down, MouseOutcome { handled: true, fire_callback: false });
    assert!(i.pressed);
    let up = i.mouse_event((10, 10), ButtonState::Released, true);
    assert_eq!(up, MouseOutcome { handled: true, fire_callback: true });
    assert!(!i.pressed);
}

#[test]
fn toggle_icon_acts_on_press() {
    let mut i = icon(IconBehavior::SettingToggle);
    assert_eq!(i.mouse_event((10, 10), ButtonState::Pressed, true), MouseOutcome { handled: true, fire_callback: true });
    assert_eq!(i.mouse_event((10, 10), ButtonState::Released, true), MouseOutcome { handled: true, fire_callback: false });
}

#[test]
fn visual_and_hidden_icons() {
    let mut v = icon(IconBehavior::Visual);
    assert_eq!(v.mouse_event((10, 10), ButtonState::Pressed, true), MouseOutcome { handled: true, fire_callback: false });
    let mut hidden = icon(IconBehavior::Click);
    hidden.visible = false;
    assert_eq!(hidden.mouse_event((10, 10), ButtonState::Pressed, true), MouseOutcome { handled: false, fire_callback: false });
    let mut away = icon(IconBehavior::Click);
    assert_eq!(away.mouse_event((50, 10), ButtonState::Pressed, true), MouseOutcome { handled: false, fire_callback: false });
}

#[test]
fn update_sets_hover_and_active() {
    let mut i = icon(IconBehavior::SettingToggle);
    assert!(i.update((5, 5), None, Some(true)));
    assert!(i.hovered && i.active);
    assert!(!i.update((80, 5), Some(true), Some(false)));
    assert!(!i.hovered && !i.active && i.disabled);
    assert!(i.update((5, 5), None, None));
    assert!(!i.hovered);
}

#[test]
fn update_releases_click_icon_left_by_mouse() {
    let mut i = icon(IconBehavior::Click);
    i.mouse_event((10, 10), ButtonState::Pressed, true);
    i.hovered = false;
    i.update((100, 100), None, None);
    assert!(!i.pressed && !i.active);
}

#[test]
fn atlas_position_follows_state() {
    let p = IconAtlasPositions { normal: (0, 0), hovered: (1, 0), selected: (2, 0), selected_hovered: (3, 0) };
    let mut i = icon(IconBehavior::Click);
    assert_eq!(i.atlas_position(p), (0, 0));
    i.hovered = true;
    assert_eq!(i.atlas_position(p), (1, 0));
    i.active = true;
    assert_eq!(i.atlas_position(p), (3, 0));
    i.hovered = false;
    assert_eq!(i.atlas_position(p), (2, 0));
}
