//! The user-facing settings: OCR languages, the keybind that opens the
//! overlay, and the lower-level Tesseract settings.
use vstd::prelude::*;
use vstd::string::*;
use crate::text::push_char;

verus! {

#[verifier::external_type_specification]
#[verifier::external_body]
#[verifier::reject_recursive_types(K)]
#[verifier::reject_recursive_types(V)]
pub struct ExTomlMap<K, V>(toml::map::Map<K, V>);

#[verifier::external_type_specification]
#[verifier::external_body]
pub struct ExTomlValue(toml::Value);

/// The keys of a TOML table, as character sequences.
pub uninterp spec fn toml_table_keys(m: toml::map::Map<String, toml::Value>) -> Set<Seq<char>>;

/// `Map::clone` for TOML tables: it clones the underlying map, so the copy has
/// the same keys.  Nothing is stated about the values.
pub assume_specification[ <toml::map::Map<String, toml::Value> as Clone>::clone ](
    m: &toml::map::Map<String, toml::Value>,
) -> (r: toml::map::Map<String, toml::Value>)
    ensures
        toml_table_keys(r) == toml_table_keys(*m),
;

/// `Map::new` for TOML tables: an empty table, with no keys.
pub assume_specification[ toml::map::Map::<String, toml::Value>::new ]() -> (r: toml::map::Map<
    String,
    toml::Value,
>)
    ensures
        toml_table_keys(r) == Set::<Seq<char>>::empty(),
;

/// A language that Tesseract can recognize: its code (the name of its
/// `.traineddata` file) and the name shown to the user.
#[derive(Debug, Clone)]
pub struct OCRLanguage {
    pub code: String,
    pub name: String,
}

impl OCRLanguage {
    pub fn new(code: &str, name: &str) -> (r: Self)
        ensures
            r.code@ == code@,
            r.name@ == name@,
    {
        Self { code: code.to_owned(), name: name.to_owned() }
    }

    /// A copy of this language.
    pub fn duplicate(&self) -> (r: Self)
        ensures
            r.code@ == self.code@,
            r.name@ == self.name@,
    {
        Self { code: self.code.clone(), name: self.name.clone() }
    }
}

/// A key together with the modifiers that must be held with it.
#[derive(Debug, Clone, Copy, PartialEq, Eq, Structural)]
pub struct Keybind {
    pub ctrl: bool,
    pub shift: bool,
    pub alt: bool,
    /// The Windows key on Windows, the Command key on macOS.
    pub meta: bool,
    pub key: char,
}

impl Default for Keybind {
    fn default() -> (k: Self)
        ensures
            k == (Keybind { ctrl: false, shift: true, alt: true, meta: false, key: 'z' }),
    {
        Self { ctrl: false, shift: true, alt: true, meta: false, key: 'z' }
    }
}

/// The text shown for a keybind: the held modifiers, each followed by ` + `,
/// then the key.
pub open spec fn keybind_text(k: Keybind) -> Seq<char> {
    (if k.ctrl {
        seq!['C', 't', 'r', 'l', ' ', '+', ' ']
    } else {
        Seq::empty()
    }) + (if k.shift {
        seq!['S', 'h', 'i', 'f', 't', ' ', '+', ' ']
    } else {
        Seq::empty()
    }) + (if k.alt {
        seq!['A', 'l', 't', ' ', '+', ' ']
    } else {
        Seq::empty()
    }) + (if k.meta {
        seq!['M', 'e', 't', 'a', ' ', '+', ' ']
    } else {
        Seq::empty()
    }) + seq![k.key]
}

impl Keybind {
    pub fn to_string(&self) -> (s: String)
        ensures
            s@ == keybind_text(*self),
    {
        let mut string = String::new();
        if self.ctrl {
            string.append("Ctrl + ");
        }
        if self.shift {
            string.append("Shift + ");
        }
        if self.alt {
            string.append("Alt + ");
        }
        if self.meta {
            string.append("Meta + ");
        }
        push_char(&mut string, self.key);
        proof {
            reveal_strlit("Ctrl + ");
            reveal_strlit("Shift + ");
            reveal_strlit("Alt + ");
            reveal_strlit("Meta + ");
        }
        assert(string@ =~= keybind_text(*self));
        string
    }

    /// Whether a key press, given as the key and the modifiers held with it,
    /// triggers this keybind: the key and every modifier must agree.
    pub fn matches(&self, pressed: Keybind) -> (r: bool)
        ensures
            r == (*self == pressed),
    {
        self.shift == pressed.shift && self.alt == pressed.alt && self.ctrl == pressed.ctrl
            && self.meta == pressed.meta && self.key == pressed.key
    }
}

/// The format in which Tesseract reports its result.
#[derive(Debug, Clone, Copy, PartialEq, Eq, Structural)]
pub enum TesseractExportMode {
    UTF8,
    HOCR,
    Alto,
    TSV,
}

/// The lower-level Tesseract configuration.
#[derive(Debug, Clone)]
pub struct TesseractSettings {
    pub ocr_language_code: String,
    pub export_mode: TesseractExportMode,
    pub ocr_languages: Vec<OCRLanguage>,
    pub tesseract_parameters: toml::Table,
}

/// The languages set up when no Tesseract settings exist yet.
pub open spec fn default_languages() -> Seq<(Seq<char>, Seq<char>)> {
    seq![
        (seq!['e', 'n', 'g'], seq!['E', 'n', 'g', 'l', 'i', 's', 'h']),
        (
            seq!['e', 'n', 'g', '_', 's', 'l', 'o', 'w'],
            seq!['E', 'n', 'g', 'l', 'i', 's', 'h', ' ', '(', 's', 'l', 'o', 'w', ')'],
        ),
        (seq!['d', 'e', 'u'], seq!['G', 'e', 'r', 'm', 'a', 'n', ' ', ' ']),
    ]
}

impl TesseractSettings {
    /// The settings used when none are stored: English recognition of plain
    /// text, with English, slow English and German to choose from, and no
    /// extra parameters.
    pub fn default_settings() -> (s: Self)
        ensures
            s.ocr_language_code@ == default_languages()[0].0,
            s.export_mode == TesseractExportMode::UTF8,
            s.ocr_languages@.len() == 3,
            toml_table_keys(s.tesseract_parameters) == Set::<Seq<char>>::empty(),
            forall|i: int|
                0 <= i < 3 ==> #[trigger] s.ocr_languages@[i].code@ == default_languages()[i].0
                    && s.ocr_languages@[i].name@ == default_languages()[i].1,
    {
        let mut languages: Vec<OCRLanguage> = Vec::new();
        languages.push(OCRLanguage::new("eng", "English"));
        languages.push(OCRLanguage::new("eng_slow", "English (slow)"));
        // The spaces after the name are intentional: they make the layout look better.
        languages.push(OCRLanguage::new("deu", "German  "));
        proof {
            reveal_strlit("eng");
            reveal_strlit("English");
            reveal_strlit("eng_slow");
            reveal_strlit("English (slow)");
            reveal_strlit("deu");
            reveal_strlit("German  ");
        }
        let s = Self {
            ocr_language_code: String::from_str("eng"),
            tesseract_parameters: toml::Table::new(),
            export_mode: TesseractExportMode::UTF8,
            ocr_languages: languages,
        };
        assert(s.ocr_language_code@ =~= default_languages()[0].0);
        assert(s.ocr_languages@[0].code@ =~= default_languages()[0].0);
        assert(s.ocr_languages@[0].name@ =~= default_languages()[0].1);
        assert(s.ocr_languages@[1].code@ =~= default_languages()[1].0);
        assert(s.ocr_languages@[1].name@ =~= default_languages()[1].1);
        assert(s.ocr_languages@[2].code@ =~= default_languages()[2].0);
        assert(s.ocr_languages@[2].name@ =~= default_languages()[2].1);
        s
    }
}

/// The codes of a list of languages.
pub open spec fn language_codes(langs: Seq<OCRLanguage>) -> Seq<Seq<char>> {
    langs.map_values(|l: OCRLanguage| l.code@)
}

/// The position of the first language whose code is `code`, if any.
pub open spec fn language_position(langs: Seq<OCRLanguage>, code: Seq<char>) -> Option<int> {
    language_codes(langs).index_of_first(code)
}

/// Whether some language has the code `code`.
pub open spec fn has_language(langs: Seq<OCRLanguage>, code: Seq<char>) -> bool {
    exists|i: int| 0 <= i < langs.len() && #[trigger] langs[i].code@ == code
}

/// The code of the language after the current one, wrapping around at the end.
pub open spec fn next_language_code(langs: Seq<OCRLanguage>, code: Seq<char>) -> Seq<char> {
    langs[(language_position(langs, code).unwrap() + 1) % (langs.len() as int)].code@
}

/// The code of the language before the current one, wrapping around at the
/// start.
pub open spec fn previous_language_code(langs: Seq<OCRLanguage>, code: Seq<char>) -> Seq<char> {
    langs[(language_position(langs, code).unwrap() + langs.len() - 1) % (
    langs.len() as int)].code@
}

/// The message with which `verify` refuses settings without languages.
pub open spec fn no_languages_message() -> Seq<char> {
    seq![
        'N', 'o', ' ', 'O', 'C', 'R', ' ', 'l', 'a', 'n', 'g', 'u', 'a', 'g', 'e', 's', ' ',
        'a', 'r', 'e', ' ', 'd', 'e', 'f', 'i', 'n', 'e', 'd',
    ]
}

proof fn lemma_language_position(langs: Seq<OCRLanguage>, code: Seq<char>)
    ensures
        has_language(langs, code) <==> language_position(langs, code) is Some,
        language_position(langs, code) matches Some(i) ==> {
            &&& 0 <= i < langs.len()
            &&& langs[i].code@ == code
            &&& forall|j: int| 0 <= j < i ==> #[trigger] langs[j].code@ != code
        },
{
    let codes = language_codes(langs);
    codes.index_of_first_ensures(code);
    if has_language(langs, code) {
        let i = choose|i: int| 0 <= i < langs.len() && #[trigger] langs[i].code@ == code;
        assert(codes[i] == code);
    }
    if let Some(i) = language_position(langs, code) {
        assert forall|j: int| 0 <= j < i implies #[trigger] langs[j].code@ != code by {
            assert(codes[j] == langs[j].code@);
        }
    }
}

proof fn lemma_unique_position(langs: Seq<OCRLanguage>, j: int)
    requires
        0 <= j < langs.len(),
        language_codes(langs).no_duplicates(),
    ensures
        language_position(langs, langs[j].code@) == Some(j),
{
    let code = langs[j].code@;
    let codes = language_codes(langs);
    lemma_language_position(langs, code);
    assert(has_language(langs, code));
    let p = language_position(langs, code).unwrap();
    assert(codes[p] == codes[j]);
}

/// With distinct language codes, stepping to the next language and back to the
/// previous one (or the other way round) returns to the language one started
/// from.
pub proof fn law_language_steps_are_inverse(langs: Seq<OCRLanguage>, code: Seq<char>)
    requires
        has_language(langs, code),
        language_codes(langs).no_duplicates(),
    ensures
        has_language(langs, next_language_code(langs, code)),
        has_language(langs, previous_language_code(langs, code)),
        previous_language_code(langs, next_language_code(langs, code)) == code,
        next_language_code(langs, previous_language_code(langs, code)) == code,
{
    lemma_language_position(langs, code);
    let i = language_position(langs, code).unwrap();
    let n = langs.len() as int;
    let j = (i + 1) % n;
    let k = (i + n - 1) % n;
    assert(0 <= j < n && 0 <= k < n && (j + n - 1) % n == i && (k + 1) % n == i)
        by (nonlinear_arith)
        requires
            0 <= i < n,
            j == (i + 1) % n,
            k == (i + n - 1) % n,
    ;
    lemma_unique_position(langs, j);
    lemma_unique_position(langs, k);
    assert(has_language(langs, langs[j].code@));
    assert(has_language(langs, langs[k].code@));
}

/// Settings are usable only when they define at least one OCR language.
pub fn verify(settings: TesseractSettings) -> (r: Result<TesseractSettings, String>)
    ensures
        settings.ocr_languages@.len() == 0 ==> (r matches Err(e) && e@ == no_languages_message()),
        settings.ocr_languages@.len() != 0 ==> r == Ok::<TesseractSettings, String>(settings),
{
    if settings.ocr_languages.len() == 0 {
        let message = String::from_str("No OCR languages are defined");
        proof {
            reveal_strlit("No OCR languages are defined");
        }
        assert(message@ =~= no_languages_message());
        return Err(message);
    }
    Ok(settings)
}

impl TesseractSettings {
    /// The position of the current language in the list.
    fn current_language_index(&self) -> (i: usize)
        requires
            has_language(self.ocr_languages@, self.ocr_language_code@),
        ensures
            language_position(self.ocr_languages@, self.ocr_language_code@) == Some(i as int),
            i < self.ocr_languages@.len(),
            self.ocr_languages@[i as int].code@ == self.ocr_language_code@,
    {
        proof {
            lemma_language_position(self.ocr_languages@, self.ocr_language_code@);
        }
        let mut i: usize = 0;
        while i < self.ocr_languages.len()
            invariant
                i <= self.ocr_languages@.len(),
                has_language(self.ocr_languages@, self.ocr_language_code@),
                forall|j: int| 0 <= j < i ==> #[trigger] self.ocr_languages@[j].code@
                    != self.ocr_language_code@,
                language_position(self.ocr_languages@, self.ocr_language_code@) matches Some(p)
                    && 0 <= p < self.ocr_languages@.len() && self.ocr_languages@[p].code@
                    == self.ocr_language_code@ && forall|j: int|
                    0 <= j < p ==> #[trigger] self.ocr_languages@[j].code@
                        != self.ocr_language_code@,
            decreases self.ocr_languages@.len() - i,
        {
            if self.ocr_languages[i].code == self.ocr_language_code {
                return i;
            }
            i = i + 1;
        }
        proof {
            let p = language_position(self.ocr_languages@, self.ocr_language_code@).unwrap();
            assert(self.ocr_languages@[p].code@ == self.ocr_language_code@);
        }
        0
    }

    /// The current language.
    pub fn get_ocr_language_data(&self) -> (r: OCRLanguage)
        requires
            has_language(self.ocr_languages@, self.ocr_language_code@),
        ensures
            language_position(self.ocr_languages@, self.ocr_language_code@) matches Some(i) && r.code@
                == self.ocr_languages@[i].code@ && r.name@ == self.ocr_languages@[i].name@,
    {
        let i = self.current_language_index();
        self.ocr_languages[i].duplicate()
    }

    /// Selects the next language, wrapping around at the end of the list.
    pub fn ocr_language_increment(&mut self)
        requires
            has_language(old(self).ocr_languages@, old(self).ocr_language_code@),
        ensures
            final(self).ocr_language_code@ == next_language_code(
                old(self).ocr_languages@,
                old(self).ocr_language_code@,
            ),
            final(self).ocr_languages == old(self).ocr_languages,
            final(self).export_mode == old(self).export_mode,
            final(self).tesseract_parameters == old(self).tesseract_parameters,
    {
        let i = self.current_language_index();
        let n = self.ocr_languages.len();
        let next = if i + 1 == n {
            0
        } else {
            i + 1
        };
        assert(next as int == (i + 1) % (n as int)) by (nonlinear_arith)
            requires
                i < n,
                next == if i + 1 == n {
                    0
                } else {
                    i + 1
                },
        ;
        self.ocr_language_code = self.ocr_languages[next].code.clone();
    }

    /// Selects the previous language, wrapping around at the start of the list.
    pub fn ocr_language_decrement(&mut self)
        requires
            has_language(old(self).ocr_languages@, old(self).ocr_language_code@),
        ensures
            final(self).ocr_language_code@ == previous_language_code(
                old(self).ocr_languages@,
                old(self).ocr_language_code@,
            ),
            final(self).ocr_languages == old(self).ocr_languages,
            final(self).export_mode == old(self).export_mode,
            final(self).tesseract_parameters == old(self).tesseract_parameters,
    {
        let i = self.current_language_index();
        let n = self.ocr_languages.len();
        let previous = if i == 0 {
            n - 1
        } else {
            i - 1
        };
        assert(previous as int == (i + n - 1) % (n as int)) by (nonlinear_arith)
            requires
                i < n,
                previous == if i == 0 {
                    n - 1
                } else {
                    i - 1
                },
        ;
        self.ocr_language_code = self.ocr_languages[previous].code.clone();
    }
}

} // verus!
