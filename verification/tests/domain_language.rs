use std::collections::HashSet;

use evolish::domain::language::{
    Language, LanguageDirection, LanguageDirectionError, LanguageSelection,
    ProviderLanguageCodeFormat, WritingDirection,
};
use evolish::domain::query_intent::{IntentSelection, QueryIntent};

#[test]
fn catalog_contains_48_unique_bcp47_tags() {
    assert_eq!(Language::ALL.len(), 48);

    let tags = Language::ALL
        .iter()
        .map(|language| language.bcp47())
        .collect::<HashSet<_>>();

    assert_eq!(tags.len(), Language::ALL.len());
    assert!(tags.contains("zh-CN"));
    assert!(tags.contains("zh-TW"));
    assert!(tags.contains("en"));
    assert!(tags.contains("he"));
}

#[test]
fn catalog_exposes_writing_direction() {
    assert_eq!(Language::English.writing_direction(), WritingDirection::LeftToRight);
    assert_eq!(Language::Arabic.writing_direction(), WritingDirection::RightToLeft);
    assert_eq!(Language::Hebrew.writing_direction(), WritingDirection::RightToLeft);
}

#[test]
fn rejects_lossy_provider_code_mapping() {
    let error = Language::ChineseSimplified
        .provider_code(ProviderLanguageCodeFormat::Iso639_1)
        .expect_err("regional Chinese must not silently collapse to an ambiguous ISO 639-1 code");

    assert_eq!(error.language(), Language::ChineseSimplified);
    assert_eq!(error.format(), ProviderLanguageCodeFormat::Iso639_1);
}

#[test]
fn manual_language_selection_and_direction_are_explicit() {
    assert_eq!(LanguageSelection::Automatic.resolve(Language::Japanese), Language::Japanese);
    assert_eq!(
        LanguageSelection::Manual(Language::French).resolve(Language::Japanese),
        Language::French
    );

    let direction = LanguageDirection::new(Language::English, Language::ChineseSimplified)
        .expect("different languages form a direction");
    assert_eq!(direction.source(), Language::English);
    assert_eq!(direction.target(), Language::ChineseSimplified);
    assert_eq!(
        LanguageDirection::new(Language::English, Language::English),
        Err(LanguageDirectionError::SameLanguage(Language::English))
    );
}

struct IntentFixture {
    name: &'static str,
    text: &'static str,
    expected: QueryIntent,
}

#[test]
fn fixture_contract_covers_supported_input_shapes() {
    let fixtures = [
        IntentFixture { name: "english word", text: "serendipity", expected: QueryIntent::Word },
        IntentFixture { name: "chinese word", text: "学习", expected: QueryIntent::Word },
        IntentFixture { name: "english phrase", text: "make up for", expected: QueryIntent::Phrase },
        IntentFixture {
            name: "chinese sentence",
            text: "我正在学习一门新的语言。",
            expected: QueryIntent::Sentence,
        },
        IntentFixture {
            name: "paragraph",
            text: "The first paragraph explains the idea.\n\nThe second paragraph adds context.",
            expected: QueryIntent::LongText,
        },
        IntentFixture {
            name: "mixed unicode",
            text: "在 Rust 中使用 UUID v7。",
            expected: QueryIntent::Sentence,
        },
        IntentFixture { name: "code", text: "let id = Uuid::now_v7();", expected: QueryIntent::Phrase },
    ];

    assert_eq!(fixtures.len(), 7);
    assert!(fixtures.iter().all(|fixture| !fixture.name.is_empty()));
    assert!(fixtures.iter().all(|fixture| !fixture.text.is_empty()));
    assert!(fixtures.iter().all(|fixture| fixture.expected.is_supported()));
}

#[test]
fn manual_intent_override_wins_over_detected_intent() {
    let selection = IntentSelection::Manual(QueryIntent::LongText);

    assert_eq!(selection.resolve(QueryIntent::Word), QueryIntent::LongText);
    assert_eq!(IntentSelection::Automatic.resolve(QueryIntent::Word), QueryIntent::Word);
}

#[test]
fn every_catalog_language_has_a_distinct_tag_and_a_writing_direction() {
    let mut seen = HashSet::new();
    for language in Language::ALL {
        assert!(seen.insert(language.bcp47()));
        let direction = language.writing_direction();
        let right_to_left = matches!(
            language,
            Language::Arabic | Language::Hebrew | Language::Persian | Language::Urdu
        );
        assert_eq!(direction == WritingDirection::RightToLeft, right_to_left);
    }
}

#[test]
fn refused_mappings_and_directions_describe_themselves() {
    let error = Language::ChineseTraditional
        .provider_code(ProviderLanguageCodeFormat::Iso639_1)
        .expect_err("no lossless two-letter code");
    assert_eq!(error.to_string(), "zh-TW cannot be represented losslessly as Iso639_1");
    let direction = LanguageDirection::new(Language::Korean, Language::Korean)
        .expect_err("same language");
    assert_eq!(direction, LanguageDirectionError::SameLanguage(Language::Korean));
    assert_eq!(direction.to_string(), "source and target are both ko");
}
