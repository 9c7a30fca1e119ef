use vstd::prelude::*;

use crate::domain::query_intent::{IntentSelection, QueryIntent};
use crate::segmentation::{count_unicode_words, grapheme_clusters, grapheme_count, unicode_word_count};
use crate::text::{
    chars_of, count_nonblank, has_several_nonblank_pieces, is_white_space, is_white_space_spec,
    split_spec, string_of, trim, trim_spec,
};

verus! {

/// Why the local classifier chose its query intent.
#[derive(Clone, Copy, Debug, PartialEq, Eq, Structural)]
pub enum ClassificationReason {
    ManualOverride,
    ParagraphBreak,
    TextLength,
    TerminalPunctuation,
    TokenCount,
}

/// Deterministic local text-classification output.
#[derive(Clone, Copy, Debug, PartialEq, Eq, Structural)]
pub struct TextClassification {
    intent: QueryIntent,
    confidence_percent: u8,
    reason: ClassificationReason,
}

impl TextClassification {
    pub closed spec fn view_tuple(self) -> (QueryIntent, u8, ClassificationReason) {
        (self.intent, self.confidence_percent, self.reason)
    }

    pub fn intent(self) -> (intent: QueryIntent)
        ensures
            intent == self.view_tuple().0,
    {
        self.intent
    }

    pub fn confidence_percent(self) -> (confidence: u8)
        ensures
            confidence == self.view_tuple().1,
    {
        self.confidence_percent
    }

    pub fn reason(self) -> (reason: ClassificationReason)
        ensures
            reason == self.view_tuple().2,
    {
        self.reason
    }
}

/// Sentence-final punctuation, Latin and full-width.
pub open spec fn is_terminal_punctuation(c: char) -> bool {
    c == '.' || c == '!' || c == '?' || c == '\u{3002}' || c == '\u{ff01}' || c == '\u{ff1f}'
}

/// A CJK ideograph: the unified ideographs with their extensions and the compatibility
/// ideographs.
pub open spec fn is_ideograph(c: char) -> bool {
    ||| '\u{3400}' <= c && c <= '\u{4dbf}'
    ||| '\u{4e00}' <= c && c <= '\u{9fff}'
    ||| '\u{f900}' <= c && c <= '\u{faff}'
    ||| '\u{20000}' <= c && c <= '\u{323af}'
}

/// A non-empty text made only of ideographs.
pub open spec fn all_ideographs(text: Seq<char>) -> bool {
    text.len() > 0 && forall|i: int| 0 <= i < text.len() ==> is_ideograph(#[trigger] text[i])
}

fn is_ideograph_exec(c: char) -> (ideograph: bool)
    ensures
        ideograph == is_ideograph(c),
{
    ('\u{3400}' <= c && c <= '\u{4dbf}') || ('\u{4e00}' <= c && c <= '\u{9fff}') || ('\u{f900}'
        <= c && c <= '\u{faff}') || ('\u{20000}' <= c && c <= '\u{323af}')
}

/// The paragraph separator: an empty line.
pub open spec fn paragraph_separator() -> Seq<char> {
    seq!['\n', '\n']
}

/// An ideographic text of at most this many grapheme clusters, without white space, is a
/// word however many words the UAX #29 rules count in it (each ideograph counts as one
/// there): a two-character word such as 学习 is a word, a longer unpunctuated run of
/// ideographs is a phrase.
pub const IDEOGRAPHIC_WORD_GRAPHEMES: usize = 2;

/// A short ideographic word: made only of ideographs and of at most
/// `IDEOGRAPHIC_WORD_GRAPHEMES` grapheme clusters.
pub open spec fn is_short_ideographic_word(text: Seq<char>, graphemes: nat) -> bool {
    all_ideographs(text) && graphemes <= IDEOGRAPHIC_WORD_GRAPHEMES
}

/// A text of at least this many grapheme clusters is long text.
pub const LONG_TEXT_GRAPHEMES: usize = 500;

/// The classification of already trimmed text, given its grapheme cluster count and
/// its UAX #29 word count. Without a paragraph break, length or final punctuation, a text
/// without white space is a word when it holds at most one UAX #29 word or is a short
/// ideographic word (see `IDEOGRAPHIC_WORD_GRAPHEMES`); any other text is a phrase.
pub open spec fn measured_classification(
    trimmed: Seq<char>,
    graphemes: nat,
    words: nat,
) -> (QueryIntent, u8, ClassificationReason) {
    if count_nonblank(split_spec(trimmed, paragraph_separator())) > 1 {
        (QueryIntent::LongText, 100u8, ClassificationReason::ParagraphBreak)
    } else if graphemes >= LONG_TEXT_GRAPHEMES {
        (QueryIntent::LongText, 95u8, ClassificationReason::TextLength)
    } else if trimmed.len() > 0 && is_terminal_punctuation(trimmed.last()) {
        (QueryIntent::Sentence, 95u8, ClassificationReason::TerminalPunctuation)
    } else if (words <= 1 || is_short_ideographic_word(trimmed, graphemes)) && !(exists|i: int|
        0 <= i < trimmed.len() && is_white_space_spec(#[trigger] trimmed[i])) {
        (QueryIntent::Word, 85u8, ClassificationReason::TokenCount)
    } else {
        (QueryIntent::Phrase, 85u8, ClassificationReason::TokenCount)
    }
}

/// The classification of a text under a selection.
pub open spec fn classification_spec(text: Seq<char>, selection: IntentSelection) -> (
    QueryIntent,
    u8,
    ClassificationReason,
) {
    match selection {
        IntentSelection::Manual(intent) => (intent, 100u8, ClassificationReason::ManualOverride),
        IntentSelection::Automatic => {
            let trimmed = trim_spec(text);
            measured_classification(
                trimmed,
                grapheme_clusters(trimmed).len(),
                unicode_word_count(trimmed),
            )
        },
    }
}

/// A pure classifier for the four accepted result shapes.
#[derive(Clone, Copy, Debug, Default)]
pub struct IntentClassifier;

impl IntentClassifier {
    pub fn classify(&self, text: &str, selection: IntentSelection) -> (classification:
        TextClassification)
        ensures
            classification.view_tuple() == classification_spec(text@, selection),
    {
        if let IntentSelection::Manual(intent) = selection {
            return TextClassification {
                intent,
                confidence_percent: 100,
                reason: ClassificationReason::ManualOverride,
            };
        }
        let chars = chars_of(text);
        let trimmed = trim(chars.as_slice());
        let trimmed_text = string_of(trimmed.as_slice());
        let graphemes = grapheme_count(trimmed_text.as_str());
        let words = count_unicode_words(trimmed_text.as_str());
        Self::classify_measured(trimmed.as_slice(), graphemes, words)
    }

    /// Classifies trimmed text from its grapheme cluster count and word count.
    pub fn classify_measured(trimmed: &[char], graphemes: usize, words: usize) -> (classification:
        TextClassification)
        ensures
            classification.view_tuple() == measured_classification(
                trimmed@,
                graphemes as nat,
                words as nat,
            ),
    {
        let separator = vec!['\n', '\n'];
        assert(separator@ =~= paragraph_separator());
        if has_several_nonblank_pieces(trimmed, separator.as_slice()) {
            return TextClassification {
                intent: QueryIntent::LongText,
                confidence_percent: 100,
                reason: ClassificationReason::ParagraphBreak,
            };
        }
        if graphemes >= LONG_TEXT_GRAPHEMES {
            return TextClassification {
                intent: QueryIntent::LongText,
                confidence_percent: 95,
                reason: ClassificationReason::TextLength,
            };
        }
        let n = trimmed.len();
        if n > 0 {
            let last = trimmed[n - 1];
            if last == '.' || last == '!' || last == '?' || last == '\u{3002}' || last == '\u{ff01}'
                || last == '\u{ff1f}' {
                return TextClassification {
                    intent: QueryIntent::Sentence,
                    confidence_percent: 95,
                    reason: ClassificationReason::TerminalPunctuation,
                };
            }
        }
        let mut has_white_space = false;
        let mut only_ideographs = true;
        let mut i: usize = 0;
        while i < n
            invariant
                n == trimmed@.len(),
                i <= n,
                has_white_space == (exists|j: int|
                    0 <= j < i && is_white_space_spec(#[trigger] trimmed@[j])),
                only_ideographs == (forall|j: int| 0 <= j < i ==> is_ideograph(#[trigger] trimmed@[j])),
            decreases n - i,
        {
            if is_white_space(trimmed[i]) {
                has_white_space = true;
            }
            if !is_ideograph_exec(trimmed[i]) {
                only_ideographs = false;
            }
            i = i + 1;
        }
        let ideographic_word = n > 0 && only_ideographs && graphemes <= IDEOGRAPHIC_WORD_GRAPHEMES;
        let intent = if (words <= 1 || ideographic_word) && !has_white_space {
            QueryIntent::Word
        } else {
            QueryIntent::Phrase
        };
        TextClassification { intent, confidence_percent: 85, reason: ClassificationReason::TokenCount }
    }
}

/// Law: a single-paragraph text of fewer than 500 grapheme clusters whose trimmed form ends
/// in `.`, `!`, `?`, `。`, `！` or `？` is a sentence, with confidence 95 and terminal
/// punctuation as the reason; a text ending in anything else is never classified as a
/// sentence.
pub proof fn law_final_punctuation_makes_a_sentence(trimmed: Seq<char>, graphemes: nat, words: nat)
    requires
        count_nonblank(split_spec(trimmed, paragraph_separator())) <= 1,
        graphemes < 500,
        trimmed.len() > 0,
    ensures
        ({
            let last = trimmed[trimmed.len() - 1];
            last == '.' || last == '!' || last == '?' || last == '\u{3002}' || last == '\u{ff01}'
                || last == '\u{ff1f}'
        }) ==> measured_classification(trimmed, graphemes, words) == (
            QueryIntent::Sentence,
            95u8,
            ClassificationReason::TerminalPunctuation,
        ),
        ({
            let last = trimmed[trimmed.len() - 1];
            !(last == '.' || last == '!' || last == '?' || last == '\u{3002}' || last == '\u{ff01}'
                || last == '\u{ff1f}')
        }) ==> measured_classification(trimmed, graphemes, words).0 != QueryIntent::Sentence,
{
}

/// Law: a manual intent is kept with full confidence; several non-blank paragraphs make long
/// text with full confidence; otherwise 500 grapheme clusters or more make long text; and a
/// text with white space and no final punctuation is a phrase.
pub proof fn law_intent_rules(text: Seq<char>, intent: QueryIntent, trimmed: Seq<char>, graphemes: nat, words: nat)
    ensures
        classification_spec(text, IntentSelection::Manual(intent)) == (
            intent,
            100u8,
            ClassificationReason::ManualOverride,
        ),
        count_nonblank(split_spec(trimmed, paragraph_separator())) > 1 ==> measured_classification(
            trimmed,
            graphemes,
            words,
        ) == (QueryIntent::LongText, 100u8, ClassificationReason::ParagraphBreak),
        count_nonblank(split_spec(trimmed, paragraph_separator())) <= 1 && graphemes >= 500
            ==> measured_classification(trimmed, graphemes, words) == (
            QueryIntent::LongText,
            95u8,
            ClassificationReason::TextLength,
        ),
        count_nonblank(split_spec(trimmed, paragraph_separator())) <= 1 && graphemes < 500
            && trimmed.len() > 0 && !is_terminal_punctuation(trimmed[trimmed.len() - 1]) && (exists|k: int|
            0 <= k < trimmed.len() && is_white_space_spec(#[trigger] trimmed[k]))
            ==> measured_classification(trimmed, graphemes, words) == (
            QueryIntent::Phrase,
            85u8,
            ClassificationReason::TokenCount,
        ),
        count_nonblank(split_spec(trimmed, paragraph_separator())) <= 1 && graphemes < 500
            && trimmed.len() > 0 && !is_terminal_punctuation(trimmed[trimmed.len() - 1]) && !(exists|k: int|
            0 <= k < trimmed.len() && is_white_space_spec(#[trigger] trimmed[k])) ==> (
        measured_classification(trimmed, graphemes, words) == (
            if words <= 1 || (all_ideographs(trimmed) && graphemes <= 2) {
                QueryIntent::Word
            } else {
                QueryIntent::Phrase
            },
            85u8,
            ClassificationReason::TokenCount,
        )),
{
}

} // verus!
