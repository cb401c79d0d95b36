use onscreen_ocr::settings::{verify, Keybind, OCRLanguage, TesseractExportMode, TesseractSettings};

fn settings(codes: &[&str], current: &str) -> TesseractSettings {
    TesseractSettings {
        ocr_language_code: current.to_string(),
        export_mode: TesseractExportMode::UTF8,
        ocr_languages: codes.iter().map(|c| OCRLanguage::new(c, &format!("name of {}", c))).collect(),
        tesseract_parameters: toml::Table::new(),
    }
}

#[test]
fn language_new_copies_strings() {
    let l = OCRLanguage::new("deu", "German");
    assert_eq!(l.code, "deu");
    assert_eq!(l.name, "German");
}

#[test]
fn default_keybind_is_shift_alt_z() {
    let k = Keybind::default();
    assert_eq!(k, Keybind { ctrl: false, shift: true, alt: true, meta: false, key: 'z' });
    assert_eq!(k.to_string(), "Shift + Alt + z");
}

#[test]
fn keybind_text_lists_all_modifiers_in_order() {
    let k = Keybind { ctrl: true, shift: true, alt: true, meta: true, key: 'q' };
    assert_eq!(k.to_string(), "Ctrl + Shift + Alt + Meta + q");
    let bare = Keybind { ctrl: false, shift: false, alt: false, meta: false, key: 'x' };
    assert_eq!(bare.to_string(), "x");
}

#[test]
fn keybind_matches_only_exact_press() {
    let k = Keybind::default();
    assert!(k.matches(Keybind::default()));
    assert!(!k.matches(Keybind { ctrl: true, ..Keybind::default() }));
    assert!(!k.matches(Keybind { key: 'y', ..Keybind::default() }));
}

#[test]
fn verify_refuses_empty_language_list() {
    let s = settings(&[], "eng");
    match verify(s) {
        Err(e) => assert_eq!(e, "No OCR languages are defined"),
        Ok(_) => panic!("settings without languages were accepted"),
    }
}

#[test]
fn verify_accepts_languages() {
    let s = settings(&["eng"], "eng");
    let ok = verify(s).ok().expect("accepted");
    assert_eq!(ok.ocr_language_code, "eng");
}

#[test]
fn language_data_of_current_code() {
    let s = settings(&["eng", "deu"], "deu");
    let l = s.get_ocr_language_data();
    assert_eq!(l.code, "deu");
    assert_eq!(l.name, "name of deu");
}

#[test]
fn language_increment_wraps_around() {
    let mut s = settings(&["eng", "eng_slow", "deu"], "eng_slow");
    s.ocr_language_increment();
    assert_eq!(s.ocr_language_code, "deu");
    s.ocr_language_increment();
    assert_eq!(s.ocr_language_code, "eng");
}

#[test]
fn language_decrement_wraps_around() {
    let mut s = settings(&["eng", "eng_slow", "deu"], "eng");
    s.ocr_language_decrement();
    assert_eq!(s.ocr_language_code, "deu");
    s.ocr_language_decrement();
    assert_eq!(s.ocr_language_code, "eng_slow");
}

#[test]
fn language_steps_are_inverse_with_distinct_codes() {
    let mut s = settings(&["eng", "eng_slow", "deu"], "eng_slow");
    s.ocr_language_increment();
    s.ocr_language_decrement();
    assert_eq!(s.ocr_language_code, "eng_slow");
}

#[test]
fn language_steps_use_first_match_with_duplicate_codes() {
    let mut s = settings(&["a", "b", "a"], "b");
    s.ocr_language_increment();
    assert_eq!(s.ocr_language_code, "a");
    s.ocr_language_decrement();
    assert_eq!(s.ocr_language_code, "a");
}

#[test]
fn default_settings_offer_three_languages() {
    let s = TesseractSettings::default_settings();
    assert_eq!(s.ocr_language_code, "eng");
    assert_eq!(s.export_mode, TesseractExportMode::UTF8);
    let codes: Vec<&str> = s.ocr_languages.iter().map(|l| l.code.as_str()).collect();
    assert_eq!(codes, vec!["eng", "eng_slow", "deu"]);
    let names: Vec<&str> = s.ocr_languages.iter().map(|l| l.name.as_str()).collect();
    assert_eq!(names, vec!["English", "English (slow)", "German  "]);
    assert!(s.tesseract_parameters.is_empty());
    assert_eq!(s.get_ocr_language_data().name, "English");
}

#[test]
fn default_settings_have_no_extra_parameters() {
    let s = TesseractSettings::default_settings();
    assert!(s.tesseract_parameters.is_empty());
    let copy = s.clone();
    assert!(copy.tesseract_parameters.is_empty());
}
