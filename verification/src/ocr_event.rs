//! The requests sent to the OCR worker.
use vstd::prelude::*;
use crate::selection::Bounds;
use crate::settings::TesseractSettings;

verus! {

/// A captured screen: its size in pixels and its RGBA bytes, row by row.
#[derive(Debug, Clone)]
pub struct Screenshot {
    pub width: usize,
    pub height: usize,
    pub bytes: Vec<u8>,
}

/// A request to the OCR worker.  Only the latest request of each kind
/// matters, so two requests are equal when they are of the same kind.
#[derive(Debug, Clone)]
pub enum OCREvent {
    SelectionChanged(Bounds),
    SettingsUpdated(TesseractSettings, Bounds),
    ScreenshotChanged(Screenshot),
}

/// Whether two requests are of the same kind.
pub open spec fn same_kind(a: OCREvent, b: OCREvent) -> bool {
    match (a, b) {
        (OCREvent::SelectionChanged(_), OCREvent::SelectionChanged(_)) => true,
        (OCREvent::SettingsUpdated(_, _), OCREvent::SettingsUpdated(_, _)) => true,
        (OCREvent::ScreenshotChanged(_), OCREvent::ScreenshotChanged(_)) => true,
        _ => false,
    }
}

impl PartialEq for OCREvent {
    fn eq(&self, other: &Self) -> (r: bool) {
        match (self, other) {
            (OCREvent::SelectionChanged(_), OCREvent::SelectionChanged(_)) => true,
            (OCREvent::SettingsUpdated(_, _), OCREvent::SettingsUpdated(_, _)) => true,
            (OCREvent::ScreenshotChanged(_), OCREvent::ScreenshotChanged(_)) => true,
            _ => false,
        }
    }
}

impl vstd::std_specs::cmp::PartialEqSpecImpl for OCREvent {
    open spec fn obeys_eq_spec() -> bool {
        true
    }

    open spec fn eq_spec(&self, other: &Self) -> bool {
        same_kind(*self, *other)
    }
}

} // verus!
