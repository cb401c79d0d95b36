//! The logic of an on-screen OCR overlay: the selection rectangle and its
//! clamping to the screen, polygon editing decisions, the undo history, the
//! settings and keybinds, the throttling of OCR requests, the placement and
//! text of the OCR preview, the icon atlas index and icon interaction, and
//! the bitmap bytes put on the clipboard, and what keys do in the overlay.
pub mod text;
pub mod selection;
pub mod polygon_edit;
pub mod undo_stack;
pub mod clipboard_image;
pub mod settings;
pub mod input;
pub mod ocr;
pub mod ocr_event;
pub mod preview;
pub mod preview_text;
pub mod icon_atlas;
pub mod icon;
pub mod overlay;
pub mod keys;
