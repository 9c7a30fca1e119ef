use std::time::Duration;

use evolish::application::translation::language_direction::{
    DirectionResolutionError, LanguageDirectionPreferences, LanguageDirectionResolver,
    TargetLanguageSelection,
};
use evolish::application::translation::ports::{
    DetectionReason, LanguageDetection, LanguageDetectorPort,
};
use evolish::application::translation::service::{
    normalize_text, PrepareError, TranslationDraft, TranslationService,
};
use evolish::domain::language::{Language, LanguageSelection};
use evolish::domain::query_intent::{IntentSelection, QueryIntent};
use evolish::domain::translation_mode::BuiltInTranslationMode;
use evolish::infrastructure::ai::contract_fixtures::ProviderRequestError;
use evolish::infrastructure::language::lingua_detector::{LinguaDetector, ModelLanguage};
use evolish::json::JsonValue;

struct EnglishDetector;

impl LanguageDetectorPort for EnglishDetector {
    fn detect(&self, _: &str) -> LanguageDetection {
        LanguageDetection::certain(Language::English, 99, DetectionReason::ScriptRule)
    }
}

fn object(entries: Vec<(&str, JsonValue)>) -> JsonValue {
    JsonValue::Object(entries.into_iter().map(|(key, value)| (key.to_owned(), value)).collect())
}

fn number(text: &str) -> JsonValue {
    JsonValue::Number(text.to_owned())
}

fn service() -> TranslationService<EnglishDetector> {
    TranslationService::new(
        EnglishDetector,
        LanguageDirectionPreferences::new(Language::ChineseSimplified, Language::English)
            .expect("preferences"),
    )
}

fn draft(text: &str, timeout: Duration, parameters: JsonValue) -> TranslationDraft {
    TranslationDraft {
        text: text.to_owned(),
        source: LanguageSelection::Automatic,
        target: TargetLanguageSelection::Automatic,
        intent: IntentSelection::Automatic,
        mode: BuiltInTranslationMode::Standard.snapshot(),
        timeout,
        parameters,
    }
}

#[test]
fn prepare_freezes_normalized_text_direction_intent_and_compiled_prompt() {
    let prepared = service()
        .prepare(draft(
            "  hello\r\nworld  ",
            Duration::from_secs(30),
            object(vec![("temperature", number("0.2"))]),
        ))
        .expect("prepared request");

    assert_eq!(prepared.text(), "hello\nworld");
    assert_eq!(prepared.request().direction().source(), Language::English);
    assert_eq!(prepared.request().direction().target(), Language::ChineseSimplified);
    assert_eq!(prepared.request().prompt().user_content(), "hello\nworld");
}

#[test]
fn prepare_rejects_blank_or_control_only_text_before_provider_selection() {
    assert!(matches!(
        service().prepare(draft(" \n\t ", Duration::from_secs(30), object(vec![]))),
        Err(PrepareError::EmptyText)
    ));
    assert!(matches!(
        service().prepare(draft("\u{0007}", Duration::from_secs(30), object(vec![]))),
        Err(PrepareError::ControlOnlyText)
    ));
}

#[test]
fn prepared_configuration_diff_is_typed_and_uses_frozen_snapshots() {
    let first = service()
        .prepare(draft("hello", Duration::from_secs(30), object(vec![("temperature", number("0.2"))])))
        .expect("first");
    let retried = service()
        .prepare(draft("changed", Duration::from_secs(60), object(vec![("temperature", number("0.2"))])))
        .expect("retry");

    let diff = first.configuration().diff(retried.configuration());

    assert!(diff.text_changed());
    assert!(diff.timeout_changed());
    assert!(!diff.direction_changed());
    assert!(!diff.mode_changed());
    assert!(!diff.parameters_changed());
}

#[test]
fn prepare_refuses_secret_parameters_and_a_zero_timeout_as_request_errors() {
    assert!(matches!(
        service().prepare(draft("hello", Duration::from_secs(30), object(vec![("Api_Key", number("1"))]))),
        Err(PrepareError::Request(ProviderRequestError::SecretInParameters))
    ));
    assert!(matches!(
        service().prepare(draft("hello", Duration::ZERO, object(vec![]))),
        Err(PrepareError::Request(ProviderRequestError::InvalidTimeout))
    ));
    assert!(matches!(
        service().prepare(draft("hello", Duration::from_secs(1), JsonValue::Null)),
        Err(PrepareError::Request(ProviderRequestError::ParametersMustBeObject))
    ));
}

#[test]
fn prepare_reports_a_same_language_direction() {
    let mut manual = draft("hello", Duration::from_secs(30), object(vec![]));
    manual.source = LanguageSelection::Manual(Language::French);
    manual.target = TargetLanguageSelection::Manual(Language::French);
    assert!(matches!(
        service().prepare(manual),
        Err(PrepareError::Direction(DirectionResolutionError::SameLanguage(Language::French)))
    ));
}

#[test]
fn prepared_configuration_records_the_mode_and_parameters_diff() {
    let first = service()
        .prepare(draft("hello", Duration::from_secs(30), object(vec![("temperature", number("0.2"))])))
        .expect("first");
    let mut literal = draft("hello", Duration::from_secs(30), object(vec![("temperature", number("0.7"))]));
    literal.mode = BuiltInTranslationMode::Literal.snapshot();
    literal.intent = IntentSelection::Manual(QueryIntent::Sentence);
    let second = service().prepare(literal).expect("second");
    let diff = first.configuration().diff(second.configuration());
    assert!(!diff.text_changed());
    assert!(diff.mode_changed());
    assert!(diff.parameters_changed());
    assert!(diff.intent_changed());
    assert!(!diff.timeout_changed());
}

#[test]
fn normalization_unifies_line_breaks_and_trims() {
    assert_eq!(normalize_text("\r\na\rb\r\r\nc\n "), "a\nb\n\nc");
}

#[test]
fn resolves_primary_secondary_manual_and_uncertain_directions() {
    let preferences = LanguageDirectionPreferences::new(Language::English, Language::ChineseSimplified)
        .expect("different configured targets");

    let chinese = LinguaDetector::script_detection("我正在学习一门新的语言。").expect("script rule");
    let automatic = LanguageDirectionResolver::resolve(
        preferences,
        LanguageSelection::Automatic,
        TargetLanguageSelection::Automatic,
        &chinese,
    )
    .expect("Chinese source should use primary English target");
    assert_eq!(automatic.source(), Language::ChineseSimplified);
    assert_eq!(automatic.target(), Language::English);

    assert!(LinguaDetector::script_detection("Language learning takes deliberate practice.").is_none());
    let english = LinguaDetector::model_detection(Some((ModelLanguage::English, 99)));
    let secondary = LanguageDirectionResolver::resolve(
        preferences,
        LanguageSelection::Automatic,
        TargetLanguageSelection::Automatic,
        &english,
    )
    .expect("primary-language source should use secondary target");
    assert_eq!(secondary.source(), Language::English);
    assert_eq!(secondary.target(), Language::ChineseSimplified);

    let manual = LanguageDirectionResolver::resolve(
        preferences,
        LanguageSelection::Manual(Language::Japanese),
        TargetLanguageSelection::Manual(Language::Korean),
        &chinese,
    )
    .expect("manual source and target overrides are authoritative");
    assert_eq!(manual.source(), Language::Japanese);
    assert_eq!(manual.target(), Language::Korean);

    let same_language = LanguageDirectionResolver::resolve(
        preferences,
        LanguageSelection::Manual(Language::English),
        TargetLanguageSelection::Manual(Language::English),
        &chinese,
    );
    assert_eq!(same_language, Err(DirectionResolutionError::SameLanguage(Language::English)));

    let uncertain = LinguaDetector::script_detection("hello 世界").expect("mixed scripts");
    assert_eq!(uncertain.language(), None);
    assert_eq!(uncertain.reason(), DetectionReason::MixedScript);
    assert_eq!(
        LanguageDirectionResolver::resolve(
            preferences,
            LanguageSelection::Automatic,
            TargetLanguageSelection::Automatic,
            &uncertain,
        ),
        Err(DirectionResolutionError::SourceLanguageUncertain)
    );

    assert!(LinguaDetector::script_detection("x").is_none());
    let short = LinguaDetector::model_detection(Some((ModelLanguage::English, 40)));
    assert_eq!(short.language(), None);
    assert_eq!(short.reason(), DetectionReason::LowConfidence);
}
