use vstd::prelude::*;

use crate::text::push_str;

verus! {

/// The closed language catalog shared by all provider adapters.
#[derive(Clone, Copy, Debug, PartialEq, Eq, Hash, Structural)]
pub enum Language {
    ChineseSimplified,
    ChineseTraditional,
    English,
    Japanese,
    Korean,
    French,
    Spanish,
    Portuguese,
    Italian,
    German,
    Russian,
    Arabic,
    Swedish,
    Romanian,
    Thai,
    Slovak,
    Dutch,
    Hungarian,
    Greek,
    Danish,
    Finnish,
    Polish,
    Czech,
    Turkish,
    Lithuanian,
    Latvian,
    Ukrainian,
    Bulgarian,
    Indonesian,
    Malay,
    Slovenian,
    Estonian,
    Vietnamese,
    Persian,
    Hindi,
    Telugu,
    Tamil,
    Urdu,
    Filipino,
    Khmer,
    Lao,
    Bengali,
    Burmese,
    Norwegian,
    Serbian,
    Croatian,
    Mongolian,
    Hebrew,
}

impl Language {
    /// Every catalog entry, in catalog order.
    pub const ALL: [Language; 48] = [
        Language::ChineseSimplified,
        Language::ChineseTraditional,
        Language::English,
        Language::Japanese,
        Language::Korean,
        Language::French,
        Language::Spanish,
        Language::Portuguese,
        Language::Italian,
        Language::German,
        Language::Russian,
        Language::Arabic,
        Language::Swedish,
        Language::Romanian,
        Language::Thai,
        Language::Slovak,
        Language::Dutch,
        Language::Hungarian,
        Language::Greek,
        Language::Danish,
        Language::Finnish,
        Language::Polish,
        Language::Czech,
        Language::Turkish,
        Language::Lithuanian,
        Language::Latvian,
        Language::Ukrainian,
        Language::Bulgarian,
        Language::Indonesian,
        Language::Malay,
        Language::Slovenian,
        Language::Estonian,
        Language::Vietnamese,
        Language::Persian,
        Language::Hindi,
        Language::Telugu,
        Language::Tamil,
        Language::Urdu,
        Language::Filipino,
        Language::Khmer,
        Language::Lao,
        Language::Bengali,
        Language::Burmese,
        Language::Norwegian,
        Language::Serbian,
        Language::Croatian,
        Language::Mongolian,
        Language::Hebrew,
    ];

    /// The BCP 47 tag of a catalog entry.
    pub open spec fn bcp47_spec(self) -> Seq<char> {
        match self {
            Language::ChineseSimplified => "zh-CN"@,
            Language::ChineseTraditional => "zh-TW"@,
            Language::English => "en"@,
            Language::Japanese => "ja"@,
            Language::Korean => "ko"@,
            Language::French => "fr"@,
            Language::Spanish => "es"@,
            Language::Portuguese => "pt"@,
            Language::Italian => "it"@,
            Language::German => "de"@,
            Language::Russian => "ru"@,
            Language::Arabic => "ar"@,
            Language::Swedish => "sv"@,
            Language::Romanian => "ro"@,
            Language::Thai => "th"@,
            Language::Slovak => "sk"@,
            Language::Dutch => "nl"@,
            Language::Hungarian => "hu"@,
            Language::Greek => "el"@,
            Language::Danish => "da"@,
            Language::Finnish => "fi"@,
            Language::Polish => "pl"@,
            Language::Czech => "cs"@,
            Language::Turkish => "tr"@,
            Language::Lithuanian => "lt"@,
            Language::Latvian => "lv"@,
            Language::Ukrainian => "uk"@,
            Language::Bulgarian => "bg"@,
            Language::Indonesian => "id"@,
            Language::Malay => "ms"@,
            Language::Slovenian => "sl"@,
            Language::Estonian => "et"@,
            Language::Vietnamese => "vi"@,
            Language::Persian => "fa"@,
            Language::Hindi => "hi"@,
            Language::Telugu => "te"@,
            Language::Tamil => "ta"@,
            Language::Urdu => "ur"@,
            Language::Filipino => "fil"@,
            Language::Khmer => "km"@,
            Language::Lao => "lo"@,
            Language::Bengali => "bn"@,
            Language::Burmese => "my"@,
            Language::Norwegian => "nb"@,
            Language::Serbian => "sr"@,
            Language::Croatian => "hr"@,
            Language::Mongolian => "mn"@,
            Language::Hebrew => "he"@,
        }
    }

    pub fn bcp47(self) -> (tag: &'static str)
        ensures
            tag@ == self.bcp47_spec(),
    {
        match self {
            Language::ChineseSimplified => "zh-CN",
            Language::ChineseTraditional => "zh-TW",
            Language::English => "en",
            Language::Japanese => "ja",
            Language::Korean => "ko",
            Language::French => "fr",
            Language::Spanish => "es",
            Language::Portuguese => "pt",
            Language::Italian => "it",
            Language::German => "de",
            Language::Russian => "ru",
            Language::Arabic => "ar",
            Language::Swedish => "sv",
            Language::Romanian => "ro",
            Language::Thai => "th",
            Language::Slovak => "sk",
            Language::Dutch => "nl",
            Language::Hungarian => "hu",
            Language::Greek => "el",
            Language::Danish => "da",
            Language::Finnish => "fi",
            Language::Polish => "pl",
            Language::Czech => "cs",
            Language::Turkish => "tr",
            Language::Lithuanian => "lt",
            Language::Latvian => "lv",
            Language::Ukrainian => "uk",
            Language::Bulgarian => "bg",
            Language::Indonesian => "id",
            Language::Malay => "ms",
            Language::Slovenian => "sl",
            Language::Estonian => "et",
            Language::Vietnamese => "vi",
            Language::Persian => "fa",
            Language::Hindi => "hi",
            Language::Telugu => "te",
            Language::Tamil => "ta",
            Language::Urdu => "ur",
            Language::Filipino => "fil",
            Language::Khmer => "km",
            Language::Lao => "lo",
            Language::Bengali => "bn",
            Language::Burmese => "my",
            Language::Norwegian => "nb",
            Language::Serbian => "sr",
            Language::Croatian => "hr",
            Language::Mongolian => "mn",
            Language::Hebrew => "he",
        }
    }

    pub open spec fn writing_direction_spec(self) -> WritingDirection {
        match self {
            Language::Arabic | Language::Hebrew | Language::Persian | Language::Urdu => {
                WritingDirection::RightToLeft
            },
            _ => WritingDirection::LeftToRight,
        }
    }

    /// Arabic, Hebrew, Persian and Urdu are written right to left; the rest left to right.
    pub fn writing_direction(self) -> (direction: WritingDirection)
        ensures
            direction == self.writing_direction_spec(),
    {
        match self {
            Language::Arabic | Language::Hebrew | Language::Persian | Language::Urdu => {
                WritingDirection::RightToLeft
            },
            _ => WritingDirection::LeftToRight,
        }
    }

    /// The code an adapter receives for this entry in `format`, or `None` when the
    /// format would lose the entry's language or regional distinction.
    pub open spec fn provider_code_spec(self, format: ProviderLanguageCodeFormat) -> Option<
        Seq<char>,
    > {
        match format {
            ProviderLanguageCodeFormat::Bcp47 => Some(self.bcp47_spec()),
            ProviderLanguageCodeFormat::Iso639_1 => match self {
                Language::ChineseSimplified | Language::ChineseTraditional => None,
                Language::Filipino => Some("tl"@),
                _ => Some(self.bcp47_spec()),
            },
        }
    }

    /// Returns a lossless language code in the format required by an adapter.
    pub fn provider_code(self, format: ProviderLanguageCodeFormat) -> (code: Result<
        &'static str,
        ProviderLanguageMappingError,
    >)
        ensures
            match code {
                Ok(text) => self.provider_code_spec(format) == Some(text@),
                Err(error) => self.provider_code_spec(format) is None && error.language_spec() == self
                    && error.format_spec() == format,
            },
    {
        match format {
            ProviderLanguageCodeFormat::Bcp47 => Ok(self.bcp47()),
            ProviderLanguageCodeFormat::Iso639_1 => match self {
                Language::ChineseSimplified | Language::ChineseTraditional => {
                    Err(ProviderLanguageMappingError { language: self, format })
                },
                Language::Filipino => Ok("tl"),
                _ => Ok(self.bcp47()),
            },
        }
    }
}

/// A numeric fingerprint of a tag of at most three characters plus its fourth and fifth
/// characters; distinct catalog tags have distinct fingerprints.
spec fn tag_fingerprint(tag: Seq<char>) -> int {
    let at = |i: int| if i < tag.len() { tag[i] as int } else { 0 };
    tag.len() as int + 8 * at(0) + 8 * 256 * at(1) + 8 * 256 * 256 * at(2) + 8 * 256 * 256 * 256
        * at(3) + 8 * 256 * 256 * 256 * 256 * at(4)
}

spec fn known_fingerprint(language: Language) -> int {
    match language {
        Language::ChineseSimplified => 2689075987413,
        Language::ChineseTraditional => 3000595334101,
        Language::English => 226090,
        Language::Japanese => 199506,
        Language::Korean => 228186,
        Language::French => 234290,
        Language::Spanish => 236330,
        Language::Portuguese => 238466,
        Language::Italian => 238410,
        Language::German => 207650,
        Language::Russian => 240530,
        Language::Arabic => 234250,
        Language::Swedish => 242586,
        Language::Romanian => 228242,
        Language::Thai => 213922,
        Language::Slovak => 220058,
        Language::Dutch => 222066,
        Language::Hungarian => 240450,
        Language::Greek => 221994,
        Language::Danish => 199458,
        Language::Finnish => 215858,
        Language::Polish => 222082,
        Language::Czech => 236314,
        Language::Turkish => 234402,
        Language::Lithuanian => 238434,
        Language::Latvian => 242530,
        Language::Ukrainian => 220074,
        Language::Bulgarian => 211730,
        Language::Indonesian => 205642,
        Language::Malay => 236394,
        Language::Slovenian => 222106,
        Language::Estonian => 238378,
        Language::Vietnamese => 215986,
        Language::Persian => 199474,
        Language::Hindi => 215874,
        Language::Telugu => 207778,
        Language::Tamil => 199586,
        Language::Urdu => 234410,
        Language::Filipino => 56838963,
        Language::Khmer => 224090,
        Language::Lao => 228194,
        Language::Bengali => 226066,
        Language::Burmese => 248682,
        Language::Norwegian => 201586,
        Language::Serbian => 234394,
        Language::Croatian => 234306,
        Language::Mongolian => 226154,
        Language::Hebrew => 207682,
    }
}

proof fn lemma_fingerprint(language: Language)
    ensures
        tag_fingerprint(language.bcp47_spec()) == known_fingerprint(language),
{
    match language {
        Language::ChineseSimplified => {
            reveal_strlit("zh-CN");
        },
        Language::ChineseTraditional => {
            reveal_strlit("zh-TW");
        },
        Language::English => {
            reveal_strlit("en");
        },
        Language::Japanese => {
            reveal_strlit("ja");
        },
        Language::Korean => {
            reveal_strlit("ko");
        },
        Language::French => {
            reveal_strlit("fr");
        },
        Language::Spanish => {
            reveal_strlit("es");
        },
        Language::Portuguese => {
            reveal_strlit("pt");
        },
        Language::Italian => {
            reveal_strlit("it");
        },
        Language::German => {
            reveal_strlit("de");
        },
        Language::Russian => {
            reveal_strlit("ru");
        },
        Language::Arabic => {
            reveal_strlit("ar");
        },
        Language::Swedish => {
            reveal_strlit("sv");
        },
        Language::Romanian => {
            reveal_strlit("ro");
        },
        Language::Thai => {
            reveal_strlit("th");
        },
        Language::Slovak => {
            reveal_strlit("sk");
        },
        Language::Dutch => {
            reveal_strlit("nl");
        },
        Language::Hungarian => {
            reveal_strlit("hu");
        },
        Language::Greek => {
            reveal_strlit("el");
        },
        Language::Danish => {
            reveal_strlit("da");
        },
        Language::Finnish => {
            reveal_strlit("fi");
        },
        Language::Polish => {
            reveal_strlit("pl");
        },
        Language::Czech => {
            reveal_strlit("cs");
        },
        Language::Turkish => {
            reveal_strlit("tr");
        },
        Language::Lithuanian => {
            reveal_strlit("lt");
        },
        Language::Latvian => {
            reveal_strlit("lv");
        },
        Language::Ukrainian => {
            reveal_strlit("uk");
        },
        Language::Bulgarian => {
            reveal_strlit("bg");
        },
        Language::Indonesian => {
            reveal_strlit("id");
        },
        Language::Malay => {
            reveal_strlit("ms");
        },
        Language::Slovenian => {
            reveal_strlit("sl");
        },
        Language::Estonian => {
            reveal_strlit("et");
        },
        Language::Vietnamese => {
            reveal_strlit("vi");
        },
        Language::Persian => {
            reveal_strlit("fa");
        },
        Language::Hindi => {
            reveal_strlit("hi");
        },
        Language::Telugu => {
            reveal_strlit("te");
        },
        Language::Tamil => {
            reveal_strlit("ta");
        },
        Language::Urdu => {
            reveal_strlit("ur");
        },
        Language::Filipino => {
            reveal_strlit("fil");
        },
        Language::Khmer => {
            reveal_strlit("km");
        },
        Language::Lao => {
            reveal_strlit("lo");
        },
        Language::Bengali => {
            reveal_strlit("bn");
        },
        Language::Burmese => {
            reveal_strlit("my");
        },
        Language::Norwegian => {
            reveal_strlit("nb");
        },
        Language::Serbian => {
            reveal_strlit("sr");
        },
        Language::Croatian => {
            reveal_strlit("hr");
        },
        Language::Mongolian => {
            reveal_strlit("mn");
        },
        Language::Hebrew => {
            reveal_strlit("he");
        },
    }
}

/// Distinct catalog entries have distinct BCP 47 tags.
pub proof fn lemma_bcp47_injective(a: Language, b: Language)
    requires
        a.bcp47_spec() == b.bcp47_spec(),
    ensures
        a == b,
{
    lemma_fingerprint(a);
    lemma_fingerprint(b);
}

#[derive(Clone, Copy, Debug, PartialEq, Eq, Structural)]
pub enum WritingDirection {
    LeftToRight,
    RightToLeft,
}

#[derive(Clone, Copy, Debug, PartialEq, Eq, Structural)]
pub enum ProviderLanguageCodeFormat {
    Bcp47,
    Iso639_1,
}

/// A catalog entry that a code format cannot represent losslessly.
#[derive(Clone, Copy, Debug, PartialEq, Eq, Structural)]
pub struct ProviderLanguageMappingError {
    language: Language,
    format: ProviderLanguageCodeFormat,
}

impl ProviderLanguageMappingError {
    pub closed spec fn language_spec(self) -> Language {
        self.language
    }

    pub closed spec fn format_spec(self) -> ProviderLanguageCodeFormat {
        self.format
    }

    pub fn language(self) -> (language: Language)
        ensures
            language == self.language_spec(),
    {
        self.language
    }

    pub fn format(self) -> (format: ProviderLanguageCodeFormat)
        ensures
            format == self.format_spec(),
    {
        self.format
    }

    /// The human-readable description: which tag cannot be written in which format.
    pub open spec fn message_spec(self) -> Seq<char> {
        self.language_spec().bcp47_spec() + " cannot be represented losslessly as "@ + match self.format_spec() {
            ProviderLanguageCodeFormat::Bcp47 => "Bcp47"@,
            ProviderLanguageCodeFormat::Iso639_1 => "Iso639_1"@,
        }
    }

    /// Describes the refused mapping in words.
    pub fn to_string(&self) -> (text: String)
        ensures
            text@ == self.message_spec(),
    {
        let mut text = String::new();
        push_str(&mut text, self.language.bcp47());
        push_str(&mut text, " cannot be represented losslessly as ");
        match self.format {
            ProviderLanguageCodeFormat::Bcp47 => push_str(&mut text, "Bcp47"),
            ProviderLanguageCodeFormat::Iso639_1 => push_str(&mut text, "Iso639_1"),
        }
        text
    }
}

#[derive(Clone, Copy, Debug, PartialEq, Eq, Structural)]
pub enum LanguageSelection {
    Automatic,
    Manual(Language),
}

impl LanguageSelection {
    pub open spec fn resolve_spec(self, detected_language: Language) -> Language {
        match self {
            LanguageSelection::Automatic => detected_language,
            LanguageSelection::Manual(language) => language,
        }
    }

    /// A manual selection wins; otherwise the detected language is used.
    pub fn resolve(self, detected_language: Language) -> (language: Language)
        ensures
            language == self.resolve_spec(detected_language),
    {
        match self {
            LanguageSelection::Automatic => detected_language,
            LanguageSelection::Manual(language) => language,
        }
    }
}

/// A translation direction between two distinct catalog entries.
#[derive(Clone, Copy, Debug, PartialEq, Eq, Structural)]
pub struct LanguageDirection {
    source: Language,
    target: Language,
}

impl LanguageDirection {
    #[verifier::type_invariant]
    spec fn endpoints_differ(self) -> bool {
        self.source != self.target
    }

    pub closed spec fn source_spec(self) -> Language {
        self.source
    }

    pub closed spec fn target_spec(self) -> Language {
        self.target
    }

    /// Builds a direction only when the source and target are distinct.
    pub fn new(source: Language, target: Language) -> (direction: Result<
        LanguageDirection,
        LanguageDirectionError,
    >)
        ensures
            source == target ==> direction == Err::<LanguageDirection, LanguageDirectionError>(
                LanguageDirectionError::SameLanguage(source),
            ),
            source != target ==> (direction matches Ok(d) && d.source_spec() == source
                && d.target_spec() == target),
    {
        if source == target {
            return Err(LanguageDirectionError::SameLanguage(source));
        }
        Ok(LanguageDirection { source, target })
    }

    pub fn source(self) -> (source: Language)
        ensures
            source == self.source_spec(),
            source != self.target_spec(),
    {
        proof {
            use_type_invariant(&self);
        }
        self.source
    }

    pub fn target(self) -> (target: Language)
        ensures
            target == self.target_spec(),
            target != self.source_spec(),
    {
        proof {
            use_type_invariant(&self);
        }
        self.target
    }
}

#[derive(Clone, Copy, Debug, PartialEq, Eq, Structural)]
pub enum LanguageDirectionError {
    SameLanguage(Language),
}

impl LanguageDirectionError {
    /// The human-readable description of the refused direction.
    pub open spec fn message_spec(self) -> Seq<char> {
        match self {
            LanguageDirectionError::SameLanguage(language) => "source and target are both "@
                + language.bcp47_spec(),
        }
    }

    /// Describes the refused direction in words.
    pub fn to_string(&self) -> (text: String)
        ensures
            text@ == self.message_spec(),
    {
        let mut text = String::new();
        match *self {
            LanguageDirectionError::SameLanguage(language) => {
                push_str(&mut text, "source and target are both ");
                push_str(&mut text, language.bcp47());
            },
        }
        text
    }
}

} // verus!
