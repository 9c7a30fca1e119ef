use evolish::domain::query_intent::QueryIntent;
use evolish::domain::translation::{AdaptiveTranslationResult, SentenceResultV1};
use evolish::infrastructure::ai::contract_fixtures::{
    accept_result, fixture_provider, provider_request, ProviderError, ProviderErrorKind,
    ProviderRequestError, ProviderTranslationRequest,
};
use evolish::infrastructure::ai::{anthropic, gemini, openai, openai_compatible};
use evolish::json::JsonValue;

fn object(entries: Vec<(&str, JsonValue)>) -> JsonValue {
    JsonValue::Object(entries.into_iter().map(|(key, value)| (key.to_owned(), value)).collect())
}

fn text(value: &str) -> JsonValue {
    JsonValue::String(value.to_owned())
}

fn array(items: Vec<JsonValue>) -> JsonValue {
    JsonValue::Array(items)
}

#[test]
fn native_anthropic_reads_only_the_named_tool_input() {
    let response = object(vec![(
        "content",
        array(vec![
            object(vec![("type", text("text")), ("text", text("ignore"))]),
            object(vec![
                ("type", text("tool_use")),
                ("name", text("other")),
                ("input", object(vec![("ignore", JsonValue::Bool(true))])),
            ]),
            object(vec![
                ("type", text("tool_use")),
                ("name", text("adaptive_translation")),
                ("input", object(vec![("complete", JsonValue::Bool(true))])),
            ]),
        ]),
    )]);
    assert_eq!(
        anthropic::tool_result(&response),
        Some(&object(vec![("complete", JsonValue::Bool(true))]))
    );
}

#[test]
fn native_anthropic_classifies_provider_http_failures_without_response_details() {
    assert_eq!(anthropic::map_status(401), ProviderErrorKind::AuthenticationFailed);
    assert_eq!(anthropic::map_status(429), ProviderErrorKind::RateLimited);
    assert_eq!(anthropic::map_status(402), ProviderErrorKind::QuotaExceeded);
}

#[test]
fn native_anthropic_maps_refusals_and_missing_tool_input() {
    let refusal = object(vec![
        ("content", array(vec![object(vec![("type", text("text")), ("text", text("I cannot help with that."))])])),
        ("stop_reason", text("refusal")),
    ]);
    assert_eq!(
        anthropic::response_input(200, Some(&refusal)).err(),
        Some(ProviderError::new(ProviderErrorKind::SafetyRefusal))
    );
    let empty = object(vec![("content", array(vec![]))]);
    assert_eq!(
        anthropic::response_input(200, Some(&empty)).err(),
        Some(ProviderError::new(ProviderErrorKind::ResponseEmpty))
    );
    assert_eq!(
        anthropic::response_input(200, None).err(),
        Some(ProviderError::new(ProviderErrorKind::ResponseMalformed))
    );
    assert_eq!(
        anthropic::response_input(404, Some(&empty)).err(),
        Some(ProviderError::new(ProviderErrorKind::ModelUnavailable))
    );
}

fn openai_message(status: &str, parts: Vec<JsonValue>) -> JsonValue {
    object(vec![("type", text("message")), ("status", text(status)), ("content", array(parts))])
}

fn output_text(value: &str) -> JsonValue {
    object(vec![("type", text("output_text")), ("text", text(value))])
}

#[test]
fn native_openai_skips_reasoning_items_until_a_complete_message_is_available() {
    let response = object(vec![(
        "output",
        array(vec![
            object(vec![("type", text("reasoning")), ("summary", array(vec![]))]),
            openai_message("in_progress", vec![output_text("partial")]),
            openai_message("completed", vec![output_text("   "), output_text("{\"kind\":\"sentence\"}")]),
        ]),
    )]);
    assert_eq!(openai::response_output_text(&response), Some("{\"kind\":\"sentence\"}"));
    assert_eq!(openai::response_text(200, Some(&response)), Ok("{\"kind\":\"sentence\"}"));
}

#[test]
fn native_openai_classifies_provider_http_failures_without_response_details() {
    assert_eq!(openai::map_status(401), ProviderErrorKind::AuthenticationFailed);
    assert_eq!(openai::map_status(429), ProviderErrorKind::RateLimited);
    assert_eq!(openai::map_status(402), ProviderErrorKind::QuotaExceeded);
    assert_eq!(openai::map_status(404), ProviderErrorKind::ModelUnavailable);
    assert_eq!(openai::map_status(403), ProviderErrorKind::SafetyRefusal);
    assert_eq!(openai::map_status(500), ProviderErrorKind::Network);
}

#[test]
fn native_openai_without_a_completed_message_is_empty() {
    let response = object(vec![("output", array(vec![openai_message("incomplete", vec![output_text("x")])]))]);
    assert_eq!(
        openai::response_text(200, Some(&response)),
        Err(ProviderError::new(ProviderErrorKind::ResponseEmpty))
    );
}

#[test]
fn native_gemini_reads_the_first_candidate_and_maps_safety_blocks() {
    let ok = object(vec![(
        "candidates",
        array(vec![object(vec![(
            "content",
            object(vec![("parts", array(vec![object(vec![("text", text("{\"kind\":\"word\"}"))])]))]),
        )])]),
    )]);
    assert_eq!(gemini::response_text(200, Some(&ok)), Ok("{\"kind\":\"word\"}"));

    let blocked = object(vec![("promptFeedback", object(vec![("blockReason", text("SAFETY"))]))]);
    assert_eq!(
        gemini::response_text(200, Some(&blocked)),
        Err(ProviderError::new(ProviderErrorKind::SafetyRefusal))
    );
    let unblocked = object(vec![("promptFeedback", object(vec![("blockReason", JsonValue::Null)]))]);
    assert!(!gemini::is_safety_refusal(&unblocked));
    let finished_for_safety = object(vec![(
        "candidates",
        array(vec![object(vec![("finishReason", text("SAFETY"))])]),
    )]);
    assert!(gemini::is_safety_refusal(&finished_for_safety));
    assert_eq!(gemini::map_status(403), ProviderErrorKind::AuthenticationFailed);
}

#[test]
fn compatible_adapter_rejects_empty_completed_content() {
    let empty = object(vec![(
        "choices",
        array(vec![object(vec![("message", object(vec![("content", text("  "))]))])]),
    )]);
    assert_eq!(
        openai_compatible::response_text(200, Some(&empty)),
        Err(ProviderError::new(ProviderErrorKind::ResponseEmpty))
    );
    let full = object(vec![(
        "choices",
        array(vec![object(vec![("message", object(vec![("content", text("{}"))]))])]),
    )]);
    assert_eq!(openai_compatible::response_text(200, Some(&full)), Ok("{}"));
}

#[test]
fn decoded_results_are_accepted_only_when_complete_and_of_the_requested_intent() {
    let sentence = AdaptiveTranslationResult::Sentence(SentenceResultV1 {
        schema_version: 1,
        primary_translation: "你好".to_owned(),
        wording_notes: Vec::new(),
        grammar_notes: Vec::new(),
    });
    assert!(accept_result(Some(sentence.clone()), QueryIntent::Sentence).is_ok());
    assert_eq!(
        accept_result(Some(sentence), QueryIntent::Word).err(),
        Some(ProviderError::new(ProviderErrorKind::ResponseSchemaInvalid))
    );
    assert_eq!(
        accept_result(None, QueryIntent::Word).err(),
        Some(ProviderError::new(ProviderErrorKind::ResponseSchemaInvalid))
    );
}

#[test]
fn shared_provider_contract_accepts_complete_results_and_classifies_failures() {
    let mut provider = fixture_provider();
    let request = provider_request();
    let success = provider.translate(&request, false).expect("fixture valid result");
    assert!(accept_result(Some(success), request.intent()).is_ok());
    for expected in [
        ProviderErrorKind::AuthenticationFailed,
        ProviderErrorKind::RateLimited,
        ProviderErrorKind::QuotaExceeded,
        ProviderErrorKind::ModelUnavailable,
        ProviderErrorKind::SafetyRefusal,
        ProviderErrorKind::ResponseEmpty,
        ProviderErrorKind::ResponseMalformed,
        ProviderErrorKind::ResponseSchemaInvalid,
        ProviderErrorKind::ResponseTooLarge,
        ProviderErrorKind::TimedOut,
    ] {
        let error = provider.translate(&request, false).expect_err("fixture failure");
        assert_eq!(error.kind(), expected);
        assert_eq!(error.code(), expected.code());
    }
    let error = provider.translate(&request, true).expect_err("cancelled request");
    assert_eq!(error.kind(), ProviderErrorKind::Cancelled);
}

#[test]
fn provider_contract_fixtures_and_public_errors_never_contain_a_secret_canary() {
    const SECRET_CANARY: &str = "evolish-secret-canary";
    let request = provider_request();

    assert!(!format!("{request:?}").contains(SECRET_CANARY));
    assert_eq!(
        ProviderErrorKind::AuthenticationFailed.code(),
        "translation.provider.authentication_failed"
    );
    assert!(matches!(
        ProviderTranslationRequest::new(
            request.direction(),
            request.intent(),
            request.prompt().clone(),
            request.schema_version(),
            request.timeout(),
            object(vec![("api_key", text(SECRET_CANARY))]),
        ),
        Err(ProviderRequestError::SecretInParameters)
    ));
    for kind in [ProviderErrorKind::AuthenticationFailed, ProviderErrorKind::Network] {
        assert!(!ProviderError::new(kind).code().contains(SECRET_CANARY));
        assert!(!ProviderError::new(kind).to_string().contains(SECRET_CANARY));
    }
}

#[test]
fn fixture_provider_counts_down_its_scripted_outcomes_and_keeps_them_when_cancelled() {
    let mut provider = fixture_provider();
    let request = provider_request();
    assert_eq!(provider.remaining(), 11);
    let _ = provider.translate(&request, true);
    assert_eq!(provider.remaining(), 11);
    let _ = provider.translate(&request, false);
    assert_eq!(provider.remaining(), 10);
}

fn number(value: &str) -> JsonValue {
    JsonValue::Number(value.to_owned())
}

fn list(items: Vec<JsonValue>) -> JsonValue {
    JsonValue::Array(items)
}

fn message(role: &str, content: &str) -> JsonValue {
    object(vec![("content", text(content)), ("role", text(role))])
}

const CONTRACT: &str = "source language: en; target language: zh-CN; intent: Sentence; schema version: 1; return only a complete validated result.";
const INSTRUCTION: &str = "Translate accurately and clearly.";

fn strict_schema(extra: Vec<(&str, JsonValue)>) -> JsonValue {
    let mut members = vec![
        ("name", text("adaptive_translation")),
        ("schema", object(vec![("type", text("object"))])),
        ("strict", JsonValue::Bool(true)),
    ];
    members.extend(extra);
    object(members)
}

#[test]
fn request_bodies_carry_the_layered_prompt_in_each_protocol() {
    let request = provider_request();
    let prompt = request.prompt();
    assert_eq!(prompt.system_contract(), CONTRACT);
    assert_eq!(prompt.mode_instruction(), INSTRUCTION);
    assert_eq!(prompt.user_content(), "hello");
    let layered = list(vec![
        message("system", CONTRACT),
        message("developer", INSTRUCTION),
        message("user", "hello"),
    ]);
    assert_eq!(
        openai::request_body("gpt-test", prompt),
        object(vec![
            ("input", layered.clone()),
            ("model", text("gpt-test")),
            ("text", object(vec![("format", strict_schema(vec![("type", text("json_schema"))]))])),
        ])
    );
    assert_eq!(
        openai_compatible::request_body("compatible-test", prompt),
        object(vec![
            ("messages", layered),
            ("model", text("compatible-test")),
            (
                "response_format",
                object(vec![("json_schema", strict_schema(Vec::new())), ("type", text("json_schema"))]),
            ),
        ])
    );
    let system = format!("{CONTRACT}\n\n{INSTRUCTION}");
    assert_eq!(
        anthropic::request_body("messages-test", prompt),
        object(vec![
            ("max_tokens", number("2048")),
            ("messages", list(vec![message("user", "hello")])),
            ("model", text("messages-test")),
            ("system", text(&system)),
            (
                "tool_choice",
                object(vec![("name", text("adaptive_translation")), ("type", text("tool"))]),
            ),
            (
                "tools",
                list(vec![object(vec![
                    ("description", text("Return the complete validated adaptive translation result.")),
                    ("input_schema", object(vec![("type", text("object"))])),
                    ("name", text("adaptive_translation")),
                ])]),
            ),
        ])
    );
    let parts = |value: &str| list(vec![object(vec![("text", text(value))])]);
    assert_eq!(
        gemini::request_body(prompt),
        object(vec![
            ("contents", list(vec![object(vec![("parts", parts("hello")), ("role", text("user"))])])),
            (
                "generationConfig",
                object(vec![
                    ("responseMimeType", text("application/json")),
                    ("responseSchema", object(vec![("type", text("OBJECT"))])),
                ]),
            ),
            ("systemInstruction", object(vec![("parts", parts(&system))])),
        ])
    );
}
