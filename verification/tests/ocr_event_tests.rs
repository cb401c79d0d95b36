use onscreen_ocr::ocr_event::{OCREvent, Screenshot};
use onscreen_ocr::selection::Bounds;
use onscreen_ocr::settings::TesseractSettings;

#[test]
fn events_of_same_kind_are_equal() {
    let a = OCREvent::SelectionChanged(Bounds::new(1, 2, 3, 4));
    let b = OCREvent::SelectionChanged(Bounds::new(5, 6, 7, 8));
    assert!(a == b);
    let s1 = OCREvent::ScreenshotChanged(Screenshot { width: 1, height: 1, bytes: vec![0, 0, 0, 0] });
    let s2 = OCREvent::ScreenshotChanged(Screenshot { width: 2, height: 1, bytes: vec![1; 8] });
    assert!(s1 == s2);
    let t = OCREvent::SettingsUpdated(TesseractSettings::default_settings(), Bounds::default());
    assert!(t == t.clone());
}

#[test]
fn events_of_different_kinds_differ() {
    let a = OCREvent::SelectionChanged(Bounds::default());
    let s = OCREvent::ScreenshotChanged(Screenshot { width: 0, height: 0, bytes: vec![] });
    let t = OCREvent::SettingsUpdated(TesseractSettings::default_settings(), Bounds::default());
    assert!(a != s);
    assert!(s != t);
    assert!(t != a);
}
