use vstd::prelude::*;

use crate::domain::language::Language;

verus! {

/// The explanation attached to a local source-language prediction.
#[derive(Clone, Copy, Debug, PartialEq, Eq, Structural)]
pub enum DetectionReason {
    /// A language-exclusive Unicode script identified the language.
    ScriptRule,
    /// The locally loaded statistical model identified the language.
    LinguaModel,
    /// More than one meaningful writing script was found.
    MixedScript,
    /// The local model could not distinguish a language with enough confidence.
    LowConfidence,
}

/// A local language prediction that represents uncertainty explicitly.
#[derive(Clone, Copy, Debug, PartialEq, Eq, Structural)]
pub struct LanguageDetection {
    language: Option<Language>,
    confidence_percent: u8,
    reason: DetectionReason,
}

impl LanguageDetection {
    pub closed spec fn language_spec(self) -> Option<Language> {
        self.language
    }

    pub closed spec fn confidence_percent_spec(self) -> u8 {
        self.confidence_percent
    }

    pub closed spec fn reason_spec(self) -> DetectionReason {
        self.reason
    }

    pub fn certain(language: Language, confidence_percent: u8, reason: DetectionReason) -> (detection:
        Self)
        ensures
            detection.language_spec() == Some(language),
            detection.confidence_percent_spec() == confidence_percent,
            detection.reason_spec() == reason,
    {
        LanguageDetection { language: Some(language), confidence_percent, reason }
    }

    pub fn uncertain(confidence_percent: u8, reason: DetectionReason) -> (detection: Self)
        ensures
            detection.language_spec() is None,
            detection.confidence_percent_spec() == confidence_percent,
            detection.reason_spec() == reason,
    {
        LanguageDetection { language: None, confidence_percent, reason }
    }

    pub fn language(self) -> (language: Option<Language>)
        ensures
            language == self.language_spec(),
    {
        self.language
    }

    pub fn confidence_percent(self) -> (confidence: u8)
        ensures
            confidence == self.confidence_percent_spec(),
    {
        self.confidence_percent
    }

    pub fn reason(self) -> (reason: DetectionReason)
        ensures
            reason == self.reason_spec(),
    {
        self.reason
    }
}

/// Local-only source-language detection boundary.
pub trait LanguageDetectorPort {
    /// Returns a certain or explicitly uncertain local prediction for `text`.
    fn detect(&self, text: &str) -> LanguageDetection;
}

} // verus!
