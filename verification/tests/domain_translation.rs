use evolish::application::translation::result_validator::validate_adaptive_result;
use evolish::domain::error::{AttemptTransitionError, ResultValidationError};
use evolish::domain::query_intent::QueryIntent;
use evolish::domain::translation::{
    AdaptiveTranslationResult, AttemptStatus, PartOfSpeech, PhraseResultV1, ProviderProfileId,
    ResultVersion, ResultVersionError, SentenceResultV1, TranslatedParagraphV1, TranslationAttempt,
    TranslationAttemptId, TranslationModeId, TranslationSessionId, WordResultV1, WordSenseV1,
};

#[test]
fn generates_uuid_v7_stable_identifiers() {
    let session_id = TranslationSessionId::generate();
    let attempt_id = TranslationAttemptId::generate();
    let profile_id = ProviderProfileId::generate();
    let mode_id = TranslationModeId::generate();

    for identifier in [
        session_id.to_string(),
        attempt_id.to_string(),
        profile_id.to_string(),
        mode_id.to_string(),
    ] {
        let parsed = uuid::Uuid::parse_str(&identifier).expect("identifier must be a UUID");
        assert_eq!(parsed.get_version_num(), 7);
    }
}

#[test]
fn parses_only_uuid_v7_identifiers() {
    let id = TranslationSessionId::generate();
    assert_eq!(TranslationSessionId::from_str(&id.to_string()).expect("v7 must parse"), id);
    assert!(TranslationSessionId::from_str("550e8400-e29b-41d4-a716-446655440000").is_err());
    assert!(TranslationSessionId::from_str("not-an-id").is_err());
}

#[test]
fn result_version_is_positive_and_monotonic() {
    assert!(ResultVersion::new(0).is_err());

    let initial = ResultVersion::initial();
    assert_eq!(initial.value(), 1);
    assert_eq!(initial.next().expect("version one has a successor").value(), 2);
}

#[test]
fn result_version_stops_at_the_largest_value() {
    let largest = ResultVersion::new(u32::MAX).expect("positive version");
    assert!(largest.next().is_err());
}

#[test]
fn validates_complete_v1_results_for_every_supported_intent() {
    let word = AdaptiveTranslationResult::Word(WordResultV1 {
        schema_version: 1,
        primary_translation: "偶然发现的美好事物".into(),
        senses: vec![WordSenseV1 {
            part_of_speech: PartOfSpeech::Noun,
            translation: "意外发现的珍奇事物".into(),
        }],
        ipa: Some("ˌserənˈdipədē".into()),
        inflections: Vec::new(),
        collocations: Vec::new(),
        examples: Vec::new(),
    });
    let phrase = AdaptiveTranslationResult::Phrase(PhraseResultV1 {
        schema_version: 1,
        primary_translation: "弥补".into(),
        usage_notes: Vec::new(),
        natural_translation: Some("补偿".into()),
        examples: Vec::new(),
    });
    let sentence = AdaptiveTranslationResult::Sentence(SentenceResultV1 {
        schema_version: 1,
        primary_translation: "我正在学习一门新的语言。".into(),
        wording_notes: Vec::new(),
        grammar_notes: Vec::new(),
    });
    let long_text = AdaptiveTranslationResult::LongText {
        schema_version: 1,
        paragraphs: vec![
            TranslatedParagraphV1 {
                index: 0,
                source_text: "First paragraph.".into(),
                translated_text: "第一段。".into(),
            },
            TranslatedParagraphV1 {
                index: 1,
                source_text: "Second paragraph.".into(),
                translated_text: "第二段。".into(),
            },
        ],
    };

    assert!(validate_adaptive_result(&word, QueryIntent::Word).is_ok());
    assert!(validate_adaptive_result(&phrase, QueryIntent::Phrase).is_ok());
    assert!(validate_adaptive_result(&sentence, QueryIntent::Sentence).is_ok());
    assert!(validate_adaptive_result(&long_text, QueryIntent::LongText).is_ok());
}

#[test]
fn rejects_invalid_or_mismatched_adaptive_results() {
    let empty_word = AdaptiveTranslationResult::Word(WordResultV1 {
        schema_version: 1,
        primary_translation: " \n ".into(),
        senses: Vec::new(),
        ipa: None,
        inflections: Vec::new(),
        collocations: Vec::new(),
        examples: Vec::new(),
    });
    let missing_and_duplicate_paragraphs = AdaptiveTranslationResult::LongText {
        schema_version: 1,
        paragraphs: vec![
            TranslatedParagraphV1 {
                index: 0,
                source_text: "First".into(),
                translated_text: "第一段".into(),
            },
            TranslatedParagraphV1 {
                index: 2,
                source_text: "Third".into(),
                translated_text: "第三段".into(),
            },
            TranslatedParagraphV1 {
                index: 2,
                source_text: "Also third".into(),
                translated_text: "还是第三段".into(),
            },
        ],
    };
    let missing_paragraph_index = AdaptiveTranslationResult::LongText {
        schema_version: 1,
        paragraphs: vec![
            TranslatedParagraphV1 {
                index: 0,
                source_text: "First".into(),
                translated_text: "第一段".into(),
            },
            TranslatedParagraphV1 {
                index: 2,
                source_text: "Third".into(),
                translated_text: "第三段".into(),
            },
        ],
    };

    assert_eq!(
        validate_adaptive_result(&empty_word, QueryIntent::Word),
        Err(ResultValidationError::EmptyPrimaryTranslation)
    );
    assert_eq!(
        validate_adaptive_result(&empty_word, QueryIntent::Sentence),
        Err(ResultValidationError::IntentMismatch {
            expected: QueryIntent::Sentence,
            actual: QueryIntent::Word,
        })
    );
    assert_eq!(
        validate_adaptive_result(&missing_and_duplicate_paragraphs, QueryIntent::LongText),
        Err(ResultValidationError::DuplicateParagraphIndex { index: 2 })
    );
    assert_eq!(
        validate_adaptive_result(&missing_paragraph_index, QueryIntent::LongText),
        Err(ResultValidationError::MissingParagraphIndexes)
    );
}

#[test]
fn attempt_state_machine_rejects_illegal_transitions_and_retries_with_new_identity() {
    let initial = TranslationAttempt::new(TranslationAttemptId::generate(), ResultVersion::initial());
    assert_eq!(initial.status(), AttemptStatus::NotRequested);
    assert!(initial.transition(AttemptStatus::Succeeded).is_err());

    let completed = initial
        .transition(AttemptStatus::Queued)
        .expect("not requested can queue")
        .transition(AttemptStatus::Running)
        .expect("queued can run")
        .transition(AttemptStatus::Succeeded)
        .expect("running can succeed");
    let retry = completed
        .retry(
            TranslationAttemptId::generate(),
            completed.result_version().next().expect("version increments"),
        )
        .expect("completed attempt can retry");

    assert_eq!(retry.status(), AttemptStatus::Queued);
    assert_ne!(retry.id(), completed.id());
    assert!(retry.result_version().value() > completed.result_version().value());
    assert!(completed
        .retry(completed.id(), completed.result_version().next().expect("version increments"))
        .is_err());

    let cancelled = TranslationAttempt::new(TranslationAttemptId::generate(), ResultVersion::initial())
        .transition(AttemptStatus::Queued)
        .expect("not requested can queue")
        .transition(AttemptStatus::Cancelled)
        .expect("queued attempt can cancel");
    assert_eq!(cancelled.status(), AttemptStatus::Cancelled);
    assert!(cancelled
        .retry(TranslationAttemptId::generate(), ResultVersion::new(2).expect("positive version"))
        .is_err());

    let failed = TranslationAttempt::new(TranslationAttemptId::generate(), ResultVersion::initial())
        .transition(AttemptStatus::Queued)
        .expect("not requested can queue")
        .transition(AttemptStatus::Running)
        .expect("queued can run")
        .transition(AttemptStatus::Failed)
        .expect("running attempt can fail");
    assert_eq!(failed.status(), AttemptStatus::Failed);
}

#[test]
fn validation_and_transition_errors_describe_themselves() {
    assert_eq!(
        ResultValidationError::IntentMismatch {
            expected: QueryIntent::Word,
            actual: QueryIntent::LongText,
        }
        .to_string(),
        "result intent LongText does not match Word"
    );
    assert_eq!(
        ResultValidationError::UnsupportedSchemaVersion { received: 12 }.to_string(),
        "unsupported result schema version 12"
    );
    assert_eq!(
        ResultValidationError::DuplicateParagraphIndex { index: 305 }.to_string(),
        "long-text paragraph index 305 is duplicated"
    );
    assert_eq!(
        ResultValidationError::EmptyParagraphSource { index: 0 }.to_string(),
        "long-text paragraph 0 has no source text"
    );
    assert_eq!(
        ResultValidationError::MissingParagraphIndexes.to_string(),
        "long-text paragraph indexes must start at zero and be contiguous"
    );
    assert_eq!(
        AttemptTransitionError::IllegalTransition {
            from: AttemptStatus::Succeeded,
            to: AttemptStatus::Running,
        }
        .to_string(),
        "cannot transition attempt from Succeeded to Running"
    );
    assert_eq!(
        AttemptTransitionError::RetryMustUseNewAttemptId.to_string(),
        "a retry must use a new attempt identifier"
    );
    assert_eq!(ResultVersionError::Zero.to_string(), "result version must be positive");
    assert_eq!(
        TranslationSessionId::from_str("not-a-uuid").expect_err("invalid").to_string(),
        "identifier is not a UUID"
    );
}

#[test]
fn copies_of_results_keep_every_field() {
    let word = AdaptiveTranslationResult::Word(WordResultV1 {
        schema_version: 1,
        primary_translation: "偶然".into(),
        senses: vec![WordSenseV1 { part_of_speech: PartOfSpeech::Noun, translation: "机缘".into() }],
        ipa: Some("ˌserənˈdipədē".into()),
        inflections: vec!["serendipities".into()],
        collocations: vec!["pure serendipity".into()],
        examples: Vec::new(),
    });
    assert_eq!(word.clone(), word);
    let long_text = AdaptiveTranslationResult::LongText {
        schema_version: 1,
        paragraphs: vec![TranslatedParagraphV1 {
            index: 0,
            source_text: "Hello.".into(),
            translated_text: "你好。".into(),
        }],
    };
    assert_eq!(long_text.clone(), long_text);
}
