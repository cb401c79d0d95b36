use onscreen_ocr::ocr::{ocr_region, update_ocr_preview_text, OCRThrottlerState, State};
use onscreen_ocr::selection::Bounds;
use std::time::Duration;

#[test]
fn small_selection_is_not_read() {
    assert_eq!(ocr_region(Bounds::new(10, 10, 4, 50), (100, 100)), None);
    assert_eq!(ocr_region(Bounds::new(10, 10, 50, -4), (100, 100)), None);
}

#[test]
fn region_is_positive_and_cut_at_screen_edges() {
    assert_eq!(
        ocr_region(Bounds::new(90, 60, -30, 70), (100, 100)),
        Some(Bounds { x: 60, y: 60, width: 30, height: 40 })
    );
    assert_eq!(
        ocr_region(Bounds::new(80, 10, 50, 20), (100, 100)),
        Some(Bounds { x: 80, y: 10, width: 20, height: 20 })
    );
}

#[test]
fn empty_result_clears_preview() {
    let mut preview = Some("old".to_string());
    assert!(!update_ocr_preview_text(&mut preview, Some(String::new())));
    assert_eq!(preview, None);
}

#[test]
fn text_result_replaces_preview() {
    let mut preview = None;
    assert!(update_ocr_preview_text(&mut preview, Some("hello".to_string())));
    assert_eq!(preview, Some("hello".to_string()));
}

#[test]
fn no_result_keeps_preview() {
    let mut preview = Some("kept".to_string());
    assert!(!update_ocr_preview_text(&mut preview, None));
    assert_eq!(preview, Some("kept".to_string()));
}

#[test]
fn throttle_waits_then_hands_out_latest_once() {
    let mut t = OCRThrottlerState::new(Duration::from_millis(50).as_nanos());
    t.put(1u32);
    t.put(2u32);
    match t.state_after(10_000_000) {
        State::Delay(d) => assert_eq!(d, 40_000_000),
        _ => panic!("value handed out too early"),
    }
    match t.state_after(50_000_000) {
        State::Ready(v) => assert_eq!(v, 2),
        _ => panic!("value not handed out"),
    }
    assert!(matches!(t.state_after(60_000_000), State::Empty));
}

#[test]
fn throttle_get_state_delays_fresh_value() {
    let mut t = OCRThrottlerState::new(Duration::from_secs(3600).as_nanos());
    t.put(5u32);
    assert!(matches!(t.get_state(), State::Delay(_)));
}

#[test]
fn throttle_get_state_releases_after_delay() {
    let mut t = OCRThrottlerState::new(Duration::ZERO.as_nanos());
    t.put(5u32);
    assert!(matches!(t.get_state(), State::Ready(5)));
    assert!(matches!(t.get_state(), State::Empty));
}

#[test]
fn throttle_new_keeps_its_delay() {
    let mut t = OCRThrottlerState::new(50_000_000);
    t.put(7u32);
    match t.state_after(0) {
        State::Delay(d) => assert_eq!(d, 50_000_000),
        _ => panic!("delay not kept"),
    }
}
