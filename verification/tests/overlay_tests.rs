use onscreen_ocr::overlay::{cursor_for, find_monitor_at, move_distance, CursorKind, MonitorArea};

#[test]
fn finds_monitor_holding_point() {
    let monitors = vec![
        MonitorArea { x: 0, y: 0, width: 1920, height: 1080 },
        MonitorArea { x: 1920, y: 0, width: 1280, height: 1024 },
    ];
    assert_eq!(find_monitor_at(&monitors, (100, 100)), Some(0));
    assert_eq!(find_monitor_at(&monitors, (2000, 100)), Some(1));
    assert_eq!(find_monitor_at(&monitors, (1920, 5)), Some(0));
    assert_eq!(find_monitor_at(&monitors, (5000, 5)), None);
    assert_eq!(find_monitor_at(&monitors, (100, -1)), None);
}

#[test]
fn cursor_depends_on_shift_and_button() {
    assert_eq!(cursor_for(true, true), CursorKind::Grabbing);
    assert_eq!(cursor_for(true, false), CursorKind::Grab);
    assert_eq!(cursor_for(false, true), CursorKind::Crosshair);
    assert_eq!(cursor_for(false, false), CursorKind::Arrow);
}

#[test]
fn arrow_key_distance() {
    assert_eq!(move_distance(false, false), 10);
    assert_eq!(move_distance(true, false), 1);
    assert_eq!(move_distance(true, true), 1);
    assert_eq!(move_distance(false, true), 50);
}
