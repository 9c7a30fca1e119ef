use std::time::Duration;

use evolish::application::translation::language_direction::{
    LanguageDirectionPreferences, TargetLanguageSelection,
};
use evolish::application::translation::ports::{
    DetectionReason, LanguageDetection, LanguageDetectorPort,
};
use evolish::application::translation::service::{TranslationDraft, TranslationService};
use evolish::application::translation::supervisor::{QuerySupervisor, SubmissionStep};
use evolish::domain::language::{Language, LanguageSelection};
use evolish::domain::query_intent::IntentSelection;
use evolish::domain::translation_mode::BuiltInTranslationMode;
use evolish::json::JsonValue;
use evolish::domain::translation::{AdaptiveTranslationResult, SentenceResultV1};
use evolish::infrastructure::ai::contract_fixtures::{ProviderError, ProviderErrorKind};

fn sentence(text: &str) -> AdaptiveTranslationResult {
    AdaptiveTranslationResult::Sentence(SentenceResultV1 {
        schema_version: 1,
        primary_translation: text.to_owned(),
        wording_notes: Vec::new(),
        grammar_notes: Vec::new(),
    })
}

fn cancelled() -> ProviderError {
    ProviderError::new(ProviderErrorKind::Cancelled)
}

#[test]
fn starting_a_request_records_only_the_primary_attempt() {
    let mut supervisor = QuerySupervisor::new();
    let start = supervisor.start_primary("main");
    assert_eq!(start.previous, None);
    let attempt = supervisor.latest_attempt(start.session_id, "__primary").expect("primary attempt");
    assert_eq!(attempt.id(), start.attempt_id);
    assert_eq!(attempt.result_version().value(), 1);
    assert!(attempt.result().is_none());
    assert!(supervisor.latest_attempt(start.session_id, "secondary").is_none());
}

#[test]
fn a_late_completion_from_a_replaced_window_session_is_cancelled_not_returned() {
    let mut supervisor = QuerySupervisor::new();
    let first = supervisor.start_primary("main");
    let second = supervisor.start_primary("main");
    assert_eq!(second.previous, Some(first.session_id));

    let late = supervisor.finish_primary("main", first.session_id, Ok(sentence("late")));
    assert_eq!(late.err(), Some(cancelled()));
    let current = supervisor.finish_primary("main", second.session_id, Ok(sentence("current")));
    assert_eq!(current, Ok(sentence("current")));
}

#[test]
fn a_failed_primary_request_reports_the_provider_failure() {
    let mut supervisor = QuerySupervisor::new();
    let start = supervisor.start_primary("main");
    let failure = ProviderError::new(ProviderErrorKind::Network);
    assert_eq!(supervisor.finish_primary("main", start.session_id, Err(failure)), Err(failure));
    assert!(supervisor.latest_attempt(start.session_id, "__primary").expect("attempt").result().is_none());
}

#[test]
fn expanding_a_provider_once_requests_it_once_and_reexpanding_reuses_its_success() {
    let mut supervisor = QuerySupervisor::new();
    let start = supervisor.start_primary("main");
    supervisor.finish_primary("main", start.session_id, Ok(sentence("ok"))).expect("primary success");

    assert_eq!(supervisor.expansion_lookup(start.session_id, "secondary"), Ok(None));
    supervisor
        .finish_expansion(start.session_id, "secondary", Ok(sentence("second")))
        .expect("first expansion");
    assert_eq!(
        supervisor.expansion_lookup(start.session_id, "secondary"),
        Ok(Some(&sentence("second")))
    );
}

#[test]
fn retry_creates_a_new_attempt_version_while_retaining_the_prior_success() {
    let mut supervisor = QuerySupervisor::new();
    let start = supervisor.start_primary("main");
    let first_result = supervisor
        .finish_primary("main", start.session_id, Ok(sentence("ok")))
        .expect("first success");
    let first = supervisor.latest_attempt(start.session_id, "__primary").expect("first attempt").clone();

    let retry_id = supervisor.start_retry(start.session_id, "__primary").expect("retry starts");
    let retried = supervisor
        .finish_retry(start.session_id, "__primary", Ok(sentence("again")))
        .expect("retry success");
    let latest = supervisor.latest_attempt(start.session_id, "__primary").expect("latest attempt");

    assert_eq!(first.result(), Some(&first_result));
    assert_eq!(latest.id(), retry_id);
    assert_ne!(latest.id(), first.id());
    assert_eq!(latest.result_version().value(), first.result_version().value() + 1);
    assert_eq!(&retried, latest.result().expect("latest result"));
}

#[test]
fn retry_and_expansion_of_a_cancelled_window_are_refused() {
    let mut supervisor = QuerySupervisor::new();
    let start = supervisor.start_primary("main");
    assert_eq!(supervisor.cancel_window("main"), Some(start.session_id));
    assert_eq!(supervisor.cancel_window("main"), None);
    assert_eq!(supervisor.start_retry(start.session_id, "__primary").err(), Some(cancelled()));
    assert_eq!(supervisor.expansion_lookup(start.session_id, "secondary"), Err(cancelled()));
    assert_eq!(
        supervisor.finish_primary("main", start.session_id, Ok(sentence("late"))).err(),
        Some(cancelled())
    );
}

#[test]
fn retrying_a_provider_without_attempts_is_refused() {
    let mut supervisor = QuerySupervisor::new();
    let start = supervisor.start_primary("main");
    assert_eq!(supervisor.start_retry(start.session_id, "secondary").err(), Some(cancelled()));
}

#[test]
fn duplicate_submission_id_reuses_the_existing_session_without_a_second_primary_call() {
    let mut supervisor = QuerySupervisor::new();
    assert_eq!(supervisor.begin_submission("submit-1"), SubmissionStep::Proceed);
    let start = supervisor.start_primary("main");
    supervisor.finish_primary("main", start.session_id, Ok(sentence("ok"))).expect("success");
    supervisor.finish_submission("submit-1", Some(start.session_id));

    assert_eq!(supervisor.begin_submission("submit-1"), SubmissionStep::Completed(start.session_id));
    let (session, result) = supervisor.completed_submission("submit-1").expect("completed");
    assert_eq!(session, start.session_id);
    assert_eq!(result, &sentence("ok"));
}

#[test]
fn concurrent_duplicate_submission_id_waits_for_one_primary_request() {
    let mut supervisor = QuerySupervisor::new();
    assert_eq!(supervisor.begin_submission("submit-concurrent"), SubmissionStep::Proceed);
    assert_eq!(supervisor.begin_submission("submit-concurrent"), SubmissionStep::Wait);
    supervisor.finish_submission("submit-concurrent", None);
    assert_eq!(supervisor.begin_submission("submit-concurrent"), SubmissionStep::Proceed);
}

struct EnglishDetector;

impl LanguageDetectorPort for EnglishDetector {
    fn detect(&self, _: &str) -> LanguageDetection {
        LanguageDetection::certain(Language::English, 99, DetectionReason::ScriptRule)
    }
}

fn draft(text: &str, timeout: Duration) -> TranslationDraft {
    TranslationDraft {
        text: text.to_owned(),
        source: LanguageSelection::Automatic,
        target: TargetLanguageSelection::Automatic,
        intent: IntentSelection::Automatic,
        mode: BuiltInTranslationMode::Standard.snapshot(),
        timeout,
        parameters: JsonValue::Object(vec![(
            "temperature".to_owned(),
            JsonValue::Number("0.2".to_owned()),
        )]),
    }
}

#[test]
fn retry_uses_the_current_explicit_draft_and_exposes_its_diff_from_the_prior_snapshot() {
    let service = TranslationService::new(
        EnglishDetector,
        LanguageDirectionPreferences::new(Language::ChineseSimplified, Language::English)
            .expect("preferences"),
    );
    let mut supervisor = QuerySupervisor::new();

    let (_, first_configuration) =
        service.prepare(draft("original", Duration::from_secs(30))).expect("first").into_parts();
    let start = supervisor.start_primary("main");
    supervisor.finish_primary("main", start.session_id, Ok(sentence("ok"))).expect("first success");
    supervisor.attach_configuration(start.session_id, "__primary", first_configuration);
    let previous = supervisor.latest_attempt(start.session_id, "__primary").expect("previous").id();

    let (_, retry_configuration) =
        service.prepare(draft("changed", Duration::from_secs(60))).expect("retry").into_parts();
    supervisor.start_retry(start.session_id, "__primary").expect("retry starts");
    supervisor
        .finish_retry(start.session_id, "__primary", Ok(sentence("ok")))
        .expect("retry success");
    supervisor.attach_configuration(start.session_id, "__primary", retry_configuration);
    let current = supervisor.latest_attempt(start.session_id, "__primary").expect("current").id();

    let diff = supervisor
        .configuration_diff(start.session_id, "__primary", previous, current)
        .expect("typed diff");
    assert_ne!(previous, current);
    assert!(diff.text_changed());
    assert!(diff.timeout_changed());
    assert!(!diff.direction_changed());
}

#[test]
fn successful_service_submission_attaches_its_frozen_configuration_to_the_attempt() {
    let service = TranslationService::new(
        EnglishDetector,
        LanguageDirectionPreferences::new(Language::ChineseSimplified, Language::English)
            .expect("preferences"),
    );
    let mut supervisor = QuerySupervisor::new();
    let (_, configuration) =
        service.prepare(draft("hello", Duration::from_secs(30))).expect("prepared").into_parts();
    let start = supervisor.start_primary("main");
    supervisor.finish_primary("main", start.session_id, Ok(sentence("你好"))).expect("success");
    supervisor.attach_configuration(start.session_id, "__primary", configuration);

    let again = service.prepare(draft("hello", Duration::from_secs(30))).expect("prepared");
    let attached = supervisor
        .latest_attempt(start.session_id, "__primary")
        .expect("attempt")
        .configuration()
        .expect("configuration");
    assert!(!attached.diff(again.configuration()).text_changed());
}
