use onscreen_ocr::clipboard_image::bitmap_size_ok;
use onscreen_ocr::ocr::ocr_region_ok;
use onscreen_ocr::overlay::{monitors_ok, MonitorArea};
use onscreen_ocr::preview::placement_ok;
use onscreen_ocr::selection::{clamp_ok, contains_ok, from_center_ok, positive_size_ok, Bounds};

#[test]
fn positive_size_ok_rejects_negating_minimum() {
    assert!(positive_size_ok(Bounds { x: 10, y: 10, width: -5, height: 5 }));
    assert!(!positive_size_ok(Bounds { x: 0, y: 0, width: i32::MIN, height: 5 }));
    assert!(!positive_size_ok(Bounds { x: i32::MIN, y: 0, width: -1, height: 5 }));
}

#[test]
fn clamp_ok_on_ordinary_and_extreme_bounds() {
    assert!(clamp_ok(Bounds { x: -50, y: 900, width: 100, height: 200 }, (1920, 1080)));
    assert!(!clamp_ok(Bounds { x: i32::MAX, y: 0, width: 10, height: 10 }, (1920, 1080)));
}

#[test]
fn contains_ok_detects_edge_overflow() {
    assert!(contains_ok(Bounds { x: 1, y: 2, width: 3, height: 4 }));
    assert!(!contains_ok(Bounds { x: i32::MAX, y: 0, width: 1, height: 0 }));
    assert!(!contains_ok(Bounds { x: 0, y: i32::MIN, width: 0, height: -1 }));
}

#[test]
fn from_center_ok_detects_overflow() {
    assert!(from_center_ok(100, 100, 40, 40));
    assert!(!from_center_ok(i32::MIN, 0, 2, 0));
    assert!(from_center_ok(i32::MIN, 0, 1, 0));
}

#[test]
fn ocr_region_ok_detects_overflow() {
    assert!(ocr_region_ok(Bounds { x: 10, y: 10, width: 50, height: 50 }, (100, 100)));
    assert!(!ocr_region_ok(Bounds { x: i32::MAX, y: 0, width: 1, height: 1 }, (100, 100)));
    assert!(!ocr_region_ok(Bounds { x: i32::MIN, y: 0, width: 1, height: 1 }, (100, 100)));
}

#[test]
fn placement_ok_cases() {
    assert!(placement_ok(true, (0, 0), Bounds { x: 0, y: 0, width: i32::MIN, height: 1 }, i32::MIN));
    assert!(placement_ok(false, (1000, 800), Bounds { x: 100, y: 100, width: 200, height: 50 }, 3));
    assert!(!placement_ok(false, (1000, 800), Bounds { x: 100, y: 100, width: 200, height: 50 }, i32::MAX));
    assert!(placement_ok(false, (1000, 800), Bounds { x: 100, y: 100, width: 0, height: 50 }, i32::MAX));
}

#[test]
fn bitmap_size_ok_limit() {
    assert!(bitmap_size_ok(1920, 1080));
    assert!(bitmap_size_ok(0, u32::MAX));
    // 4 * 1_073_741_811 + 54 is past u32::MAX, 4 * 1_073_741_810 + 54 is not
    assert!(!bitmap_size_ok(1, 1_073_741_811));
    assert!(bitmap_size_ok(1, 1_073_741_810));
    assert!(!bitmap_size_ok(65536, 65536));
}

#[test]
fn monitors_ok_stops_at_first_holder() {
    let ok = MonitorArea { x: 0, y: 0, width: 100, height: 100 };
    let bad = MonitorArea { x: i32::MAX - 1, y: 0, width: 10, height: 10 };
    assert!(monitors_ok(&vec![ok, bad], (50, 50)));
    assert!(!monitors_ok(&vec![bad, ok], (i32::MAX, 50)));
    assert!(monitors_ok(&vec![], (0, 0)));
}
