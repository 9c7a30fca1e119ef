use vstd::prelude::*;

use crate::application::translation::ports::{DetectionReason, LanguageDetection};
use crate::domain::language::Language;
use crate::text::chars_of;

verus! {

/// Below this model confidence a prediction is reported as uncertain.
pub const CONFIDENCE_THRESHOLD_PERCENT: u8 = 70;

/// The languages the local statistical model is built for.
#[derive(Clone, Copy, Debug, PartialEq, Eq, Hash, Structural)]
pub enum ModelLanguage {
    Arabic,
    Bengali,
    Bokmal,
    Bulgarian,
    Chinese,
    Croatian,
    Czech,
    Danish,
    Dutch,
    English,
    Estonian,
    Finnish,
    French,
    German,
    Greek,
    Hebrew,
    Hindi,
    Hungarian,
    Indonesian,
    Italian,
    Japanese,
    Korean,
    Latvian,
    Lithuanian,
    Malay,
    Mongolian,
    Persian,
    Polish,
    Portuguese,
    Romanian,
    Russian,
    Serbian,
    Slovak,
    Slovene,
    Spanish,
    Swedish,
    Tagalog,
    Tamil,
    Telugu,
    Thai,
    Turkish,
    Ukrainian,
    Urdu,
    Vietnamese,
}

impl ModelLanguage {
    /// Every language the model is built for.
    pub const ALL: [ModelLanguage; 44] = [
        ModelLanguage::Arabic,
        ModelLanguage::Bengali,
        ModelLanguage::Bokmal,
        ModelLanguage::Bulgarian,
        ModelLanguage::Chinese,
        ModelLanguage::Croatian,
        ModelLanguage::Czech,
        ModelLanguage::Danish,
        ModelLanguage::Dutch,
        ModelLanguage::English,
        ModelLanguage::Estonian,
        ModelLanguage::Finnish,
        ModelLanguage::French,
        ModelLanguage::German,
        ModelLanguage::Greek,
        ModelLanguage::Hebrew,
        ModelLanguage::Hindi,
        ModelLanguage::Hungarian,
        ModelLanguage::Indonesian,
        ModelLanguage::Italian,
        ModelLanguage::Japanese,
        ModelLanguage::Korean,
        ModelLanguage::Latvian,
        ModelLanguage::Lithuanian,
        ModelLanguage::Malay,
        ModelLanguage::Mongolian,
        ModelLanguage::Persian,
        ModelLanguage::Polish,
        ModelLanguage::Portuguese,
        ModelLanguage::Romanian,
        ModelLanguage::Russian,
        ModelLanguage::Serbian,
        ModelLanguage::Slovak,
        ModelLanguage::Slovene,
        ModelLanguage::Spanish,
        ModelLanguage::Swedish,
        ModelLanguage::Tagalog,
        ModelLanguage::Tamil,
        ModelLanguage::Telugu,
        ModelLanguage::Thai,
        ModelLanguage::Turkish,
        ModelLanguage::Ukrainian,
        ModelLanguage::Urdu,
        ModelLanguage::Vietnamese,
    ];

    /// The catalog entry a model language stands for.
    pub open spec fn catalog_language_spec(self) -> Language {
        match self {
            ModelLanguage::Arabic => Language::Arabic,
            ModelLanguage::Bengali => Language::Bengali,
            ModelLanguage::Bokmal => Language::Norwegian,
            ModelLanguage::Bulgarian => Language::Bulgarian,
            ModelLanguage::Chinese => Language::ChineseSimplified,
            ModelLanguage::Croatian => Language::Croatian,
            ModelLanguage::Czech => Language::Czech,
            ModelLanguage::Danish => Language::Danish,
            ModelLanguage::Dutch => Language::Dutch,
            ModelLanguage::English => Language::English,
            ModelLanguage::Estonian => Language::Estonian,
            ModelLanguage::Finnish => Language::Finnish,
            ModelLanguage::French => Language::French,
            ModelLanguage::German => Language::German,
            ModelLanguage::Greek => Language::Greek,
            ModelLanguage::Hebrew => Language::Hebrew,
            ModelLanguage::Hindi => Language::Hindi,
            ModelLanguage::Hungarian => Language::Hungarian,
            ModelLanguage::Indonesian => Language::Indonesian,
            ModelLanguage::Italian => Language::Italian,
            ModelLanguage::Japanese => Language::Japanese,
            ModelLanguage::Korean => Language::Korean,
            ModelLanguage::Latvian => Language::Latvian,
            ModelLanguage::Lithuanian => Language::Lithuanian,
            ModelLanguage::Malay => Language::Malay,
            ModelLanguage::Mongolian => Language::Mongolian,
            ModelLanguage::Persian => Language::Persian,
            ModelLanguage::Polish => Language::Polish,
            ModelLanguage::Portuguese => Language::Portuguese,
            ModelLanguage::Romanian => Language::Romanian,
            ModelLanguage::Russian => Language::Russian,
            ModelLanguage::Serbian => Language::Serbian,
            ModelLanguage::Slovak => Language::Slovak,
            ModelLanguage::Slovene => Language::Slovenian,
            ModelLanguage::Spanish => Language::Spanish,
            ModelLanguage::Swedish => Language::Swedish,
            ModelLanguage::Tagalog => Language::Filipino,
            ModelLanguage::Tamil => Language::Tamil,
            ModelLanguage::Telugu => Language::Telugu,
            ModelLanguage::Thai => Language::Thai,
            ModelLanguage::Turkish => Language::Turkish,
            ModelLanguage::Ukrainian => Language::Ukrainian,
            ModelLanguage::Urdu => Language::Urdu,
            ModelLanguage::Vietnamese => Language::Vietnamese,
        }
    }

    pub fn catalog_language(self) -> (language: Language)
        ensures
            language == self.catalog_language_spec(),
    {
        match self {
            ModelLanguage::Arabic => Language::Arabic,
            ModelLanguage::Bengali => Language::Bengali,
            ModelLanguage::Bokmal => Language::Norwegian,
            ModelLanguage::Bulgarian => Language::Bulgarian,
            ModelLanguage::Chinese => Language::ChineseSimplified,
            ModelLanguage::Croatian => Language::Croatian,
            ModelLanguage::Czech => Language::Czech,
            ModelLanguage::Danish => Language::Danish,
            ModelLanguage::Dutch => Language::Dutch,
            ModelLanguage::English => Language::English,
            ModelLanguage::Estonian => Language::Estonian,
            ModelLanguage::Finnish => Language::Finnish,
            ModelLanguage::French => Language::French,
            ModelLanguage::German => Language::German,
            ModelLanguage::Greek => Language::Greek,
            ModelLanguage::Hebrew => Language::Hebrew,
            ModelLanguage::Hindi => Language::Hindi,
            ModelLanguage::Hungarian => Language::Hungarian,
            ModelLanguage::Indonesian => Language::Indonesian,
            ModelLanguage::Italian => Language::Italian,
            ModelLanguage::Japanese => Language::Japanese,
            ModelLanguage::Korean => Language::Korean,
            ModelLanguage::Latvian => Language::Latvian,
            ModelLanguage::Lithuanian => Language::Lithuanian,
            ModelLanguage::Malay => Language::Malay,
            ModelLanguage::Mongolian => Language::Mongolian,
            ModelLanguage::Persian => Language::Persian,
            ModelLanguage::Polish => Language::Polish,
            ModelLanguage::Portuguese => Language::Portuguese,
            ModelLanguage::Romanian => Language::Romanian,
            ModelLanguage::Russian => Language::Russian,
            ModelLanguage::Serbian => Language::Serbian,
            ModelLanguage::Slovak => Language::Slovak,
            ModelLanguage::Slovene => Language::Slovenian,
            ModelLanguage::Spanish => Language::Spanish,
            ModelLanguage::Swedish => Language::Swedish,
            ModelLanguage::Tagalog => Language::Filipino,
            ModelLanguage::Tamil => Language::Tamil,
            ModelLanguage::Telugu => Language::Telugu,
            ModelLanguage::Thai => Language::Thai,
            ModelLanguage::Turkish => Language::Turkish,
            ModelLanguage::Ukrainian => Language::Ukrainian,
            ModelLanguage::Urdu => Language::Urdu,
            ModelLanguage::Vietnamese => Language::Vietnamese,
        }
    }
}

/// A character of the text lies in the code-point range `lo..=hi`.
pub open spec fn has_char_in(text: Seq<char>, lo: char, hi: char) -> bool {
    exists|i: int| 0 <= i < text.len() && lo <= #[trigger] text[i] && text[i] <= hi
}

/// CJK Unified Ideographs.
pub open spec fn is_cjk_spec(c: char) -> bool {
    '\u{4e00}' <= c && c <= '\u{9fff}'
}

/// Ideographs that only Traditional Chinese writes this way.
pub open spec fn is_traditional_chinese_spec(c: char) -> bool {
    c == '學' || c == '習' || c == '語' || c == '譯' || c == '門' || c == '練' || c == '並'
}

/// The language that a script used by no other catalog language identifies, checked
/// in a fixed order; Chinese is traditional when a traditional-only ideograph occurs.
pub open spec fn exclusive_script_language(text: Seq<char>) -> Option<Language> {
    if has_char_in(text, '\u{3040}', '\u{30ff}') {
        Some(Language::Japanese)
    } else     if has_char_in(text, '\u{ac00}', '\u{d7af}') {
        Some(Language::Korean)
    } else     if has_char_in(text, '\u{0370}', '\u{03ff}') {
        Some(Language::Greek)
    } else     if has_char_in(text, '\u{0590}', '\u{05ff}') {
        Some(Language::Hebrew)
    } else     if has_char_in(text, '\u{0900}', '\u{097f}') {
        Some(Language::Hindi)
    } else     if has_char_in(text, '\u{0980}', '\u{09ff}') {
        Some(Language::Bengali)
    } else     if has_char_in(text, '\u{0b80}', '\u{0bff}') {
        Some(Language::Tamil)
    } else     if has_char_in(text, '\u{0c00}', '\u{0c7f}') {
        Some(Language::Telugu)
    } else     if has_char_in(text, '\u{0e00}', '\u{0e7f}') {
        Some(Language::Thai)
    } else     if has_char_in(text, '\u{1780}', '\u{17ff}') {
        Some(Language::Khmer)
    } else     if has_char_in(text, '\u{0e80}', '\u{0eff}') {
        Some(Language::Lao)
    } else     if has_char_in(text, '\u{1000}', '\u{109f}') {
        Some(Language::Burmese)
    } else if exists|i: int| 0 <= i < text.len() && is_cjk_spec(#[trigger] text[i]) {
        if exists|i: int| 0 <= i < text.len() && is_traditional_chinese_spec(#[trigger] text[i]) {
            Some(Language::ChineseTraditional)
        } else {
            Some(Language::ChineseSimplified)
        }
    } else {
        None
    }
}

/// A letter of the basic Latin alphabet.
pub open spec fn is_ascii_letter(c: char) -> bool {
    ('A' <= c && c <= 'Z') || ('a' <= c && c <= 'z')
}

/// A character of a meaningful non-Latin script (CJK, Cyrillic, Arabic, Indic,
/// Thai and Lao, Myanmar to Khmer).
pub open spec fn is_meaningful_non_latin(c: char) -> bool {
    ||| is_cjk_spec(c)
    ||| ('\u{0400}' <= c && c <= '\u{052f}')
    ||| ('\u{0600}' <= c && c <= '\u{06ff}')
    ||| ('\u{0900}' <= c && c <= '\u{0dff}')
    ||| ('\u{0e00}' <= c && c <= '\u{0eff}')
    ||| ('\u{1000}' <= c && c <= '\u{17ff}')
}

/// Latin letters occur together with a meaningful non-Latin script.
pub open spec fn mixed_meaningful_scripts(text: Seq<char>) -> bool {
    &&& exists|i: int| 0 <= i < text.len() && is_ascii_letter(#[trigger] text[i])
    &&& exists|i: int| 0 <= i < text.len() && is_meaningful_non_latin(#[trigger] text[i])
}

/// The detection decided by Unicode scripts alone, before the statistical model.
pub open spec fn script_detection_spec(text: Seq<char>) -> Option<
    (Option<Language>, u8, DetectionReason),
> {
    if mixed_meaningful_scripts(text) {
        Some((None, 0u8, DetectionReason::MixedScript))
    } else {
        match exclusive_script_language(text) {
            Some(language) => Some((Some(language), 100u8, DetectionReason::ScriptRule)),
            None => None,
        }
    }
}

/// Law: a text holding one of the traditional-only ideographs 學, 習, 語, 譯, 門, 練 or 並 is
/// always given a language by its scripts, and never Simplified Chinese; script detection
/// never reports it as Simplified Chinese either.
pub proof fn law_traditional_ideographs_are_never_simplified(text: Seq<char>, i: int)
    requires
        0 <= i < text.len(),
        text[i] == '學' || text[i] == '習' || text[i] == '語' || text[i] == '譯' || text[i] == '門'
            || text[i] == '練' || text[i] == '並',
    ensures
        exclusive_script_language(text) is Some,
        exclusive_script_language(text) != Some(Language::ChineseSimplified),
        script_detection_spec(text) matches Some((language, _, _)) && language != Some(
            Language::ChineseSimplified,
        ),
{
    assert(is_cjk_spec(text[i]));
    assert(is_traditional_chinese_spec(text[i]));
}

/// Law: a text with kana is Japanese by its scripts; a text with Hangul and no kana is
/// Korean.
pub proof fn law_kana_is_japanese_and_hangul_korean(text: Seq<char>, i: int)
    requires
        0 <= i < text.len(),
    ensures
        '\u{3040}' <= text[i] && text[i] <= '\u{30ff}' ==> exclusive_script_language(text) == Some(
            Language::Japanese,
        ),
        '\u{ac00}' <= text[i] && text[i] <= '\u{d7af}' && !has_char_in(text, '\u{3040}', '\u{30ff}')
            ==> exclusive_script_language(text) == Some(Language::Korean),
{
}

/// Law: a text mixing basic Latin letters with CJK ideographs is reported as uncertain, for
/// a mixed script, with no language and no confidence.
pub proof fn law_mixed_scripts_are_uncertain(text: Seq<char>, i: int, j: int)
    requires
        0 <= i < text.len(),
        0 <= j < text.len(),
        ('A' <= text[i] && text[i] <= 'Z') || ('a' <= text[i] && text[i] <= 'z'),
        '\u{4e00}' <= text[j] && text[j] <= '\u{9fff}',
    ensures
        script_detection_spec(text) == Some((None::<Language>, 0u8, DetectionReason::MixedScript)),
{
    assert(is_ascii_letter(text[i]));
    assert(is_meaningful_non_latin(text[j]));
}

proof fn lemma_push_outside_range(text: Seq<char>, c: char, lo: char, hi: char)
    requires
        !(lo <= c && c <= hi),
    ensures
        has_char_in(text.push(c), lo, hi) == has_char_in(text, lo, hi),
{
    let pushed = text.push(c);
    if has_char_in(pushed, lo, hi) {
        let k = choose|k: int| 0 <= k < pushed.len() && lo <= #[trigger] pushed[k] && pushed[k] <= hi;
        assert(k < text.len());
        assert(text[k] == pushed[k]);
    }
    if has_char_in(text, lo, hi) {
        let k = choose|k: int| 0 <= k < text.len() && lo <= #[trigger] text[k] && text[k] <= hi;
        assert(pushed[k] == text[k]);
    }
}

/// Law: adding a traditional-only ideograph to a text that its scripts call Simplified
/// Chinese makes it Traditional Chinese.
pub proof fn law_a_traditional_ideograph_makes_chinese_traditional(text: Seq<char>, c: char)
    requires
        exclusive_script_language(text) == Some(Language::ChineseSimplified),
        c == '學' || c == '習' || c == '語' || c == '譯' || c == '門' || c == '練' || c == '並',
    ensures
        exclusive_script_language(text.push(c)) == Some(Language::ChineseTraditional),
{
    let pushed = text.push(c);
    lemma_push_outside_range(text, c, '\u{3040}', '\u{30ff}');
    lemma_push_outside_range(text, c, '\u{ac00}', '\u{d7af}');
    lemma_push_outside_range(text, c, '\u{0370}', '\u{03ff}');
    lemma_push_outside_range(text, c, '\u{0590}', '\u{05ff}');
    lemma_push_outside_range(text, c, '\u{0900}', '\u{097f}');
    lemma_push_outside_range(text, c, '\u{0980}', '\u{09ff}');
    lemma_push_outside_range(text, c, '\u{0b80}', '\u{0bff}');
    lemma_push_outside_range(text, c, '\u{0c00}', '\u{0c7f}');
    lemma_push_outside_range(text, c, '\u{0e00}', '\u{0e7f}');
    lemma_push_outside_range(text, c, '\u{1780}', '\u{17ff}');
    lemma_push_outside_range(text, c, '\u{0e80}', '\u{0eff}');
    lemma_push_outside_range(text, c, '\u{1000}', '\u{109f}');
    assert(pushed[text.len() as int] == c);
    assert(is_cjk_spec(pushed[text.len() as int]));
    assert(is_traditional_chinese_spec(pushed[text.len() as int]));
}

/// The detection decided by the model's most confident language and its confidence
/// rounded to a percentage.
pub open spec fn model_detection_spec(top: Option<(ModelLanguage, u8)>) -> (
    Option<Language>,
    u8,
    DetectionReason,
) {
    match top {
        None => (None, 0u8, DetectionReason::LowConfidence),
        Some((language, percent)) => if percent < CONFIDENCE_THRESHOLD_PERCENT {
            (None, percent, DetectionReason::LowConfidence)
        } else {
            (Some(language.catalog_language_spec()), percent, DetectionReason::LinguaModel)
        },
    }
}

pub open spec fn detection_tuple(detection: LanguageDetection) -> (
    Option<Language>,
    u8,
    DetectionReason,
) {
    (detection.language_spec(), detection.confidence_percent_spec(), detection.reason_spec())
}

fn any_char_in(text: &[char], lo: char, hi: char) -> (found: bool)
    ensures
        found == has_char_in(text@, lo, hi),
{
    let mut i: usize = 0;
    while i < text.len()
        invariant
            i <= text@.len(),
            forall|j: int| 0 <= j < i ==> !(lo <= #[trigger] text@[j] && text@[j] <= hi),
        decreases text@.len() - i,
    {
        if lo <= text[i] && text[i] <= hi {
            return true;
        }
        i = i + 1;
    }
    false
}

fn is_cjk(c: char) -> (r: bool)
    ensures
        r == is_cjk_spec(c),
{
    '\u{4e00}' <= c && c <= '\u{9fff}'
}

fn is_traditional_chinese(c: char) -> (r: bool)
    ensures
        r == is_traditional_chinese_spec(c),
{
    c == '學' || c == '習' || c == '語' || c == '譯' || c == '門' || c == '練' || c == '並'
}

fn is_meaningful_non_latin_exec(c: char) -> (r: bool)
    ensures
        r == is_meaningful_non_latin(c),
{
    is_cjk(c) || ('\u{0400}' <= c && c <= '\u{052f}') || ('\u{0600}' <= c && c <= '\u{06ff}')
        || ('\u{0900}' <= c && c <= '\u{0dff}') || ('\u{0e00}' <= c && c <= '\u{0eff}') || (
    '\u{1000}' <= c && c <= '\u{17ff}')
}

fn language_from_exclusive_script(text: &[char]) -> (language: Option<Language>)
    ensures
        language == exclusive_script_language(text@),
{
    if any_char_in(text, '\u{3040}', '\u{30ff}') {
        return Some(Language::Japanese);
    }
    if any_char_in(text, '\u{ac00}', '\u{d7af}') {
        return Some(Language::Korean);
    }
    if any_char_in(text, '\u{0370}', '\u{03ff}') {
        return Some(Language::Greek);
    }
    if any_char_in(text, '\u{0590}', '\u{05ff}') {
        return Some(Language::Hebrew);
    }
    if any_char_in(text, '\u{0900}', '\u{097f}') {
        return Some(Language::Hindi);
    }
    if any_char_in(text, '\u{0980}', '\u{09ff}') {
        return Some(Language::Bengali);
    }
    if any_char_in(text, '\u{0b80}', '\u{0bff}') {
        return Some(Language::Tamil);
    }
    if any_char_in(text, '\u{0c00}', '\u{0c7f}') {
        return Some(Language::Telugu);
    }
    if any_char_in(text, '\u{0e00}', '\u{0e7f}') {
        return Some(Language::Thai);
    }
    if any_char_in(text, '\u{1780}', '\u{17ff}') {
        return Some(Language::Khmer);
    }
    if any_char_in(text, '\u{0e80}', '\u{0eff}') {
        return Some(Language::Lao);
    }
    if any_char_in(text, '\u{1000}', '\u{109f}') {
        return Some(Language::Burmese);
    }
    let mut has_cjk = false;
    let mut has_traditional = false;
    let mut i: usize = 0;
    while i < text.len()
        invariant
            i <= text@.len(),
            has_cjk == exists|j: int| 0 <= j < i && is_cjk_spec(#[trigger] text@[j]),
            has_traditional == exists|j: int|
                0 <= j < i && is_traditional_chinese_spec(#[trigger] text@[j]),
        decreases text@.len() - i,
    {
        if is_cjk(text[i]) {
            has_cjk = true;
        }
        if is_traditional_chinese(text[i]) {
            has_traditional = true;
        }
        i = i + 1;
    }
    if has_cjk {
        if has_traditional {
            Some(Language::ChineseTraditional)
        } else {
            Some(Language::ChineseSimplified)
        }
    } else {
        None
    }
}

fn contains_mixed_meaningful_scripts(text: &[char]) -> (mixed: bool)
    ensures
        mixed == mixed_meaningful_scripts(text@),
{
    let mut has_latin = false;
    let mut has_non_latin = false;
    let mut i: usize = 0;
    while i < text.len()
        invariant
            i <= text@.len(),
            has_latin == exists|j: int| 0 <= j < i && is_ascii_letter(#[trigger] text@[j]),
            has_non_latin == exists|j: int|
                0 <= j < i && is_meaningful_non_latin(#[trigger] text@[j]),
        decreases text@.len() - i,
    {
        let c = text[i];
        if ('A' <= c && c <= 'Z') || ('a' <= c && c <= 'z') {
            has_latin = true;
        }
        if is_meaningful_non_latin_exec(c) {
            has_non_latin = true;
        }
        i = i + 1;
    }
    has_latin && has_non_latin
}

/// The local language detector: Unicode script rules first, then the statistical model.
#[derive(Clone, Copy, Debug, Default)]
pub struct LinguaDetector;

impl LinguaDetector {
    pub fn new() -> (detector: Self) {
        LinguaDetector
    }

    /// The detection that Unicode scripts decide on their own: mixed meaningful scripts are
    /// uncertain, a language-exclusive script is certain, anything else is left to the model.
    pub fn script_detection(text: &str) -> (detection: Option<LanguageDetection>)
        ensures
            match script_detection_spec(text@) {
                None => detection is None,
                Some(expected) => detection matches Some(d) && detection_tuple(d) == expected,
            },
    {
        let chars = chars_of(text);
        if contains_mixed_meaningful_scripts(chars.as_slice()) {
            return Some(LanguageDetection::uncertain(0, DetectionReason::MixedScript));
        }
        match language_from_exclusive_script(chars.as_slice()) {
            Some(language) => Some(
                LanguageDetection::certain(language, 100, DetectionReason::ScriptRule),
            ),
            None => None,
        }
    }

    /// The detection from the model's most confident language and its confidence as a
    /// rounded percentage (`None` when the model ranks no language).
    pub fn model_detection(top: Option<(ModelLanguage, u8)>) -> (detection: LanguageDetection)
        ensures
            detection_tuple(detection) == model_detection_spec(top),
    {
        match top {
            None => LanguageDetection::uncertain(0, DetectionReason::LowConfidence),
            Some((language, percent)) => {
                if percent < CONFIDENCE_THRESHOLD_PERCENT {
                    LanguageDetection::uncertain(percent, DetectionReason::LowConfidence)
                } else {
                    LanguageDetection::certain(
                        language.catalog_language(),
                        percent,
                        DetectionReason::LinguaModel,
                    )
                }
            },
        }
    }
}

} // verus!
