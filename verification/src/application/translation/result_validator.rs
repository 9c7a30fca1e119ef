use vstd::prelude::*;

use crate::domain::error::ResultValidationError;
use crate::domain::query_intent::QueryIntent;
use crate::domain::translation::{AdaptiveTranslationResult, TranslatedParagraphV1};
use crate::text::{chars_of, is_blank, is_blank_spec, is_white_space_spec};

verus! {

/// The only adaptive result schema version this build accepts.
pub const ADAPTIVE_RESULT_SCHEMA_VERSION: u16 = 1;

/// The first structural fault of paragraph `i` of a long-text result, given the
/// paragraphs before it: blank source, blank translation, or an index seen earlier.
pub open spec fn paragraph_fault(paragraphs: Seq<TranslatedParagraphV1>, i: int) -> Option<
    ResultValidationError,
> {
    let paragraph = paragraphs[i];
    if is_blank_spec(paragraph.source_text@) {
        Some(ResultValidationError::EmptyParagraphSource { index: paragraph.index })
    } else if is_blank_spec(paragraph.translated_text@) {
        Some(ResultValidationError::EmptyParagraphTranslation { index: paragraph.index })
    } else if exists|j: int| 0 <= j < i && #[trigger] paragraphs[j].index == paragraph.index {
        Some(ResultValidationError::DuplicateParagraphIndex { index: paragraph.index })
    } else {
        None
    }
}

/// The fault of the first faulty paragraph at or after `from`, in source order.
pub open spec fn first_paragraph_fault(paragraphs: Seq<TranslatedParagraphV1>, from: int) -> Option<
    ResultValidationError,
>
    decreases paragraphs.len() - from,
{
    if from < 0 || from >= paragraphs.len() {
        None
    } else {
        match paragraph_fault(paragraphs, from) {
            Some(fault) => Some(fault),
            None => first_paragraph_fault(paragraphs, from + 1),
        }
    }
}

/// Distinct paragraph indexes that all lie below the paragraph count are exactly
/// `0..count`: the indexes start at zero and are contiguous.
pub open spec fn indexes_below_count(paragraphs: Seq<TranslatedParagraphV1>) -> bool {
    forall|i: int| 0 <= i < paragraphs.len() ==> (#[trigger] paragraphs[i].index) < paragraphs.len()
}

pub open spec fn validate_paragraphs_spec(paragraphs: Seq<TranslatedParagraphV1>) -> Result<
    (),
    ResultValidationError,
> {
    if paragraphs.len() == 0 {
        Err(ResultValidationError::EmptyParagraphs)
    } else {
        match first_paragraph_fault(paragraphs, 0) {
            Some(fault) => Err(fault),
            None => if indexes_below_count(paragraphs) {
                Ok(())
            } else {
                Err(ResultValidationError::MissingParagraphIndexes)
            },
        }
    }
}

/// What validating a complete result against the expected intent gives.
pub open spec fn validate_adaptive_result_spec(
    result: AdaptiveTranslationResult,
    expected_intent: QueryIntent,
) -> Result<(), ResultValidationError> {
    if result.intent_spec() != expected_intent {
        Err(
            ResultValidationError::IntentMismatch {
                expected: expected_intent,
                actual: result.intent_spec(),
            },
        )
    } else if result.schema_version_spec() != ADAPTIVE_RESULT_SCHEMA_VERSION {
        Err(
            ResultValidationError::UnsupportedSchemaVersion {
                received: result.schema_version_spec(),
            },
        )
    } else {
        match result {
            AdaptiveTranslationResult::Word(word) => if is_blank_spec(word.primary_translation@) {
                Err(ResultValidationError::EmptyPrimaryTranslation)
            } else {
                Ok(())
            },
            AdaptiveTranslationResult::Phrase(phrase) => if is_blank_spec(
                phrase.primary_translation@,
            ) {
                Err(ResultValidationError::EmptyPrimaryTranslation)
            } else {
                Ok(())
            },
            AdaptiveTranslationResult::Sentence(sentence) => if is_blank_spec(
                sentence.primary_translation@,
            ) {
                Err(ResultValidationError::EmptyPrimaryTranslation)
            } else {
                Ok(())
            },
            AdaptiveTranslationResult::LongText { paragraphs, .. } => validate_paragraphs_spec(
                paragraphs@,
            ),
        }
    }
}

/// Validates a complete provider result before it can cross the UI boundary.
pub fn validate_adaptive_result(
    result: &AdaptiveTranslationResult,
    expected_intent: QueryIntent,
) -> (outcome: Result<(), ResultValidationError>)
    ensures
        outcome == validate_adaptive_result_spec(*result, expected_intent),
{
    let actual_intent = result.intent();
    if actual_intent != expected_intent {
        return Err(
            ResultValidationError::IntentMismatch { expected: expected_intent, actual: actual_intent },
        );
    }
    if result.schema_version() != ADAPTIVE_RESULT_SCHEMA_VERSION {
        return Err(
            ResultValidationError::UnsupportedSchemaVersion { received: result.schema_version() },
        );
    }
    match result {
        AdaptiveTranslationResult::Word(word) => validate_primary_translation(
            &word.primary_translation,
        ),
        AdaptiveTranslationResult::Phrase(phrase) => validate_primary_translation(
            &phrase.primary_translation,
        ),
        AdaptiveTranslationResult::Sentence(sentence) => validate_primary_translation(
            &sentence.primary_translation,
        ),
        AdaptiveTranslationResult::LongText { paragraphs, .. } => validate_paragraphs(
            paragraphs.as_slice(),
        ),
    }
}

fn validate_primary_translation(translation: &String) -> (outcome: Result<(), ResultValidationError>)
    ensures
        outcome == (if is_blank_spec(translation@) {
            Err::<(), ResultValidationError>(ResultValidationError::EmptyPrimaryTranslation)
        } else {
            Ok(())
        }),
{
    let chars = chars_of(translation.as_str());
    if is_blank(chars.as_slice()) {
        return Err(ResultValidationError::EmptyPrimaryTranslation);
    }
    Ok(())
}

fn index_seen_before(paragraphs: &[TranslatedParagraphV1], i: usize) -> (seen: bool)
    requires
        i < paragraphs@.len(),
    ensures
        seen == exists|j: int| 0 <= j < i && #[trigger] paragraphs@[j].index == paragraphs@[i as int].index,
{
    let index = paragraphs[i].index;
    let mut j: usize = 0;
    while j < i
        invariant
            i < paragraphs@.len(),
            index == paragraphs@[i as int].index,
            forall|k: int| 0 <= k < j ==> #[trigger] paragraphs@[k].index != index,
        decreases i - j,
    {
        if paragraphs[j].index == index {
            return true;
        }
        j = j + 1;
    }
    false
}

fn paragraph_fault_exec(paragraphs: &[TranslatedParagraphV1], i: usize) -> (fault: Option<
    ResultValidationError,
>)
    requires
        i < paragraphs@.len(),
    ensures
        fault == paragraph_fault(paragraphs@, i as int),
{
    let paragraph = &paragraphs[i];
    let source = chars_of(paragraph.source_text.as_str());
    if is_blank(source.as_slice()) {
        return Some(ResultValidationError::EmptyParagraphSource { index: paragraph.index });
    }
    let translated = chars_of(paragraph.translated_text.as_str());
    if is_blank(translated.as_slice()) {
        return Some(ResultValidationError::EmptyParagraphTranslation { index: paragraph.index });
    }
    if index_seen_before(paragraphs, i) {
        return Some(ResultValidationError::DuplicateParagraphIndex { index: paragraph.index });
    }
    None
}

proof fn lemma_no_fault_prefix(paragraphs: Seq<TranslatedParagraphV1>, i: int)
    requires
        0 <= i <= paragraphs.len(),
        forall|j: int| 0 <= j < i ==> paragraph_fault(paragraphs, j) is None,
    ensures
        first_paragraph_fault(paragraphs, 0) == first_paragraph_fault(paragraphs, i),
    decreases i,
{
    if i > 0 {
        lemma_no_fault_prefix(paragraphs, i - 1);
    }
}

fn validate_paragraphs(paragraphs: &[TranslatedParagraphV1]) -> (outcome: Result<
    (),
    ResultValidationError,
>)
    ensures
        outcome == validate_paragraphs_spec(paragraphs@),
{
    if paragraphs.len() == 0 {
        return Err(ResultValidationError::EmptyParagraphs);
    }
    let mut i: usize = 0;
    while i < paragraphs.len()
        invariant
            i <= paragraphs@.len(),
            paragraphs@.len() > 0,
            forall|j: int| 0 <= j < i ==> paragraph_fault(paragraphs@, j) is None,
        decreases paragraphs@.len() - i,
    {
        match paragraph_fault_exec(paragraphs, i) {
            Some(fault) => {
                proof {
                    lemma_no_fault_prefix(paragraphs@, i as int);
                }
                return Err(fault);
            },
            None => {},
        }
        i = i + 1;
    }
    proof {
        lemma_no_fault_prefix(paragraphs@, paragraphs@.len() as int);
    }
    let count = paragraphs.len();
    let mut k: usize = 0;
    while k < count
        invariant
            count == paragraphs@.len(),
            k <= count,
            first_paragraph_fault(paragraphs@, 0) is None,
            forall|j: int| 0 <= j < k ==> (#[trigger] paragraphs@[j].index) < count,
        decreases count - k,
    {
        if paragraphs[k].index as usize >= count {
            return Err(ResultValidationError::MissingParagraphIndexes);
        }
        k = k + 1;
    }
    Ok(())
}

/// When no paragraph from `from` on has a fault, none of them has one.
proof fn lemma_no_fault_from(paragraphs: Seq<TranslatedParagraphV1>, from: int, i: int)
    requires
        0 <= from <= i < paragraphs.len(),
        first_paragraph_fault(paragraphs, from) is None,
    ensures
        paragraph_fault(paragraphs, i) is None,
    decreases i - from,
{
    if from < i {
        lemma_no_fault_from(paragraphs, from + 1, i);
    }
}

/// A text holds a character that is not white space.
pub open spec fn has_visible_text(text: Seq<char>) -> bool {
    exists|k: int| 0 <= k < text.len() && !is_white_space_spec(#[trigger] text[k])
}

proof fn lemma_not_blank_is_visible(text: Seq<char>)
    requires
        !is_blank_spec(text),
    ensures
        has_visible_text(text),
{
    let k = choose|k: int| !(0 <= k < text.len() ==> is_white_space_spec(#[trigger] text[k]));
    assert(0 <= k < text.len() && !is_white_space_spec(text[k]));
}

/// Law: a result is accepted only in the expected intent and schema version 1, with every
/// text a reader sees holding a character that is not white space: the primary translation
/// of a word, phrase or sentence, and the source and the translation of every paragraph of
/// a long text, whose paragraph indexes are distinct and lie below the paragraph count.
pub proof fn law_accepted_results_have_visible_text(
    result: AdaptiveTranslationResult,
    expected_intent: QueryIntent,
)
    requires
        validate_adaptive_result_spec(result, expected_intent) is Ok,
    ensures
        result.intent_spec() == expected_intent,
        result.schema_version_spec() == 1,
        result matches AdaptiveTranslationResult::Word(w) ==> has_visible_text(
            w.primary_translation@,
        ),
        result matches AdaptiveTranslationResult::Phrase(p) ==> has_visible_text(
            p.primary_translation@,
        ),
        result matches AdaptiveTranslationResult::Sentence(s) ==> has_visible_text(
            s.primary_translation@,
        ),
        result matches AdaptiveTranslationResult::LongText { paragraphs, .. } ==> {
            &&& paragraphs@.len() > 0
            &&& forall|i: int|
                0 <= i < paragraphs@.len() ==> has_visible_text((#[trigger] paragraphs@[i]).source_text@)
                    && has_visible_text(paragraphs@[i].translated_text@)
                    && paragraphs@[i].index < paragraphs@.len()
            &&& forall|i: int, j: int|
                0 <= i < j < paragraphs@.len() ==> (#[trigger] paragraphs@[i]).index
                    != (#[trigger] paragraphs@[j]).index
        },
{
    match result {
        AdaptiveTranslationResult::Word(w) => {
            lemma_not_blank_is_visible(w.primary_translation@);
        },
        AdaptiveTranslationResult::Phrase(p) => {
            lemma_not_blank_is_visible(p.primary_translation@);
        },
        AdaptiveTranslationResult::Sentence(s) => {
            lemma_not_blank_is_visible(s.primary_translation@);
        },
        AdaptiveTranslationResult::LongText { paragraphs, .. } => {
            let ps = paragraphs@;
            assert forall|i: int|
                0 <= i < ps.len() implies has_visible_text((#[trigger] ps[i]).source_text@)
                && has_visible_text(ps[i].translated_text@) && ps[i].index < ps.len() by {
                lemma_no_fault_from(ps, 0, i);
                lemma_not_blank_is_visible(ps[i].source_text@);
                lemma_not_blank_is_visible(ps[i].translated_text@);
            }
            assert forall|i: int, j: int| 0 <= i < j < ps.len() implies (#[trigger] ps[i]).index
                != (#[trigger] ps[j]).index by {
                lemma_no_fault_from(ps, 0, j);
                if ps[i].index == ps[j].index {
                    assert(exists|k: int| 0 <= k < j && #[trigger] ps[k].index == ps[j].index);
                }
            }
        },
    }
}

proof fn lemma_faultless_from(paragraphs: Seq<TranslatedParagraphV1>, from: int)
    requires
        0 <= from,
        forall|i: int| 0 <= i < paragraphs.len() ==> #[trigger] paragraph_fault(paragraphs, i) is None,
    ensures
        first_paragraph_fault(paragraphs, from) is None,
    decreases paragraphs.len() - from,
{
    if from < paragraphs.len() {
        assert(paragraph_fault(paragraphs, from) is None);
        lemma_faultless_from(paragraphs, from + 1);
    }
}

/// Law: a result in the expected intent and schema version 1 whose visible texts all hold a
/// character that is not white space is accepted, when for a long text its paragraph
/// indexes are distinct and lie below the paragraph count.
pub proof fn law_complete_results_are_accepted(
    result: AdaptiveTranslationResult,
    expected_intent: QueryIntent,
)
    requires
        result.intent_spec() == expected_intent,
        result.schema_version_spec() == 1,
        result matches AdaptiveTranslationResult::Word(w) ==> has_visible_text(
            w.primary_translation@,
        ),
        result matches AdaptiveTranslationResult::Phrase(p) ==> has_visible_text(
            p.primary_translation@,
        ),
        result matches AdaptiveTranslationResult::Sentence(s) ==> has_visible_text(
            s.primary_translation@,
        ),
        result matches AdaptiveTranslationResult::LongText { paragraphs, .. } ==> {
            &&& paragraphs@.len() > 0
            &&& forall|i: int|
                0 <= i < paragraphs@.len() ==> has_visible_text((#[trigger] paragraphs@[i]).source_text@)
                    && has_visible_text(paragraphs@[i].translated_text@)
                    && paragraphs@[i].index < paragraphs@.len()
            &&& forall|i: int, j: int|
                0 <= i < j < paragraphs@.len() ==> (#[trigger] paragraphs@[i]).index
                    != (#[trigger] paragraphs@[j]).index
        },
    ensures
        validate_adaptive_result_spec(result, expected_intent) is Ok,
{
    match result {
        AdaptiveTranslationResult::LongText { paragraphs, .. } => {
            let ps = paragraphs@;
            assert forall|i: int| 0 <= i < ps.len() implies #[trigger] paragraph_fault(ps, i) is None by {
                let a = choose|k: int| 0 <= k < ps[i].source_text@.len() && !is_white_space_spec(
                    #[trigger] ps[i].source_text@[k],
                );
                let b = choose|k: int| 0 <= k < ps[i].translated_text@.len() && !is_white_space_spec(
                    #[trigger] ps[i].translated_text@[k],
                );
                assert(!is_blank_spec(ps[i].source_text@));
                assert(!is_blank_spec(ps[i].translated_text@));
                assert(!exists|j: int| 0 <= j < i && #[trigger] ps[j].index == ps[i].index);
            }
            lemma_faultless_from(ps, 0);
        },
        AdaptiveTranslationResult::Word(w) => {
            let a = choose|k: int| 0 <= k < w.primary_translation@.len() && !is_white_space_spec(
                #[trigger] w.primary_translation@[k],
            );
            assert(!is_blank_spec(w.primary_translation@));
        },
        AdaptiveTranslationResult::Phrase(p) => {
            let a = choose|k: int| 0 <= k < p.primary_translation@.len() && !is_white_space_spec(
                #[trigger] p.primary_translation@[k],
            );
            assert(!is_blank_spec(p.primary_translation@));
        },
        AdaptiveTranslationResult::Sentence(t) => {
            let a = choose|k: int| 0 <= k < t.primary_translation@.len() && !is_white_space_spec(
                #[trigger] t.primary_translation@[k],
            );
            assert(!is_blank_spec(t.primary_translation@));
        },
    }
}

} // verus!
