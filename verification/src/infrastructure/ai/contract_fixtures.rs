use vstd::prelude::*;

use std::time::Duration;

use crate::application::translation::prompt_compiler::CompiledPrompt;
use crate::domain::language::LanguageDirection;
use crate::domain::provider::Timeout;
use crate::domain::query_intent::QueryIntent;
use crate::application::translation::result_validator::{
    validate_adaptive_result, validate_adaptive_result_spec,
};
use crate::application::translation::prompt_compiler::PromptCompiler;
use crate::domain::language::Language;
use crate::domain::translation::{AdaptiveTranslationResult, SentenceResultV1};
use crate::domain::translation_mode::BuiltInTranslationMode;
use crate::json::{contains_secret_key, has_secret_key, JsonValue};
use crate::text::{chars_of, is_blank, is_blank_spec};

verus! {

/// Complete, non-secret data needed by a provider adapter for one translation attempt.
#[derive(Debug)]
pub struct ProviderTranslationRequest {
    direction: LanguageDirection,
    intent: QueryIntent,
    prompt: CompiledPrompt,
    schema_version: u16,
    timeout: Timeout,
    parameters: JsonValue,
}

/// The checks on a request, in order: a zero schema version, a zero timeout, parameters
/// that are not an object, and parameters that name credential material are refused.
pub open spec fn request_verdict(schema_version: u16, timeout: Timeout, parameters: JsonValue) -> Result<
    (),
    ProviderRequestError,
> {
    if schema_version == 0 {
        Err(ProviderRequestError::InvalidSchemaVersion)
    } else if timeout.is_zero_spec() {
        Err(ProviderRequestError::InvalidTimeout)
    } else if !parameters.is_object_spec() {
        Err(ProviderRequestError::ParametersMustBeObject)
    } else if has_secret_key(parameters) {
        Err(ProviderRequestError::SecretInParameters)
    } else {
        Ok(())
    }
}

impl ProviderTranslationRequest {
    #[verifier::type_invariant]
    spec fn is_valid(self) -> bool {
        self.timeout.is_normalized() && request_verdict(
            self.schema_version,
            self.timeout,
            self.parameters,
        ) is Ok
    }

    pub closed spec fn direction_spec(&self) -> LanguageDirection {
        self.direction
    }

    pub closed spec fn intent_spec(&self) -> QueryIntent {
        self.intent
    }

    pub closed spec fn prompt_spec(&self) -> CompiledPrompt {
        self.prompt
    }

    pub closed spec fn schema_version_spec(&self) -> u16 {
        self.schema_version
    }

    pub closed spec fn timeout_spec(&self) -> Timeout {
        self.timeout
    }

    pub closed spec fn parameters_spec(&self) -> JsonValue {
        self.parameters
    }

    /// Creates a request that contains no credential material, from a timeout's parts.
    pub fn from_timeout(
        direction: LanguageDirection,
        intent: QueryIntent,
        prompt: CompiledPrompt,
        schema_version: u16,
        timeout: Timeout,
        parameters: JsonValue,
    ) -> (request: Result<Self, ProviderRequestError>)
        requires
            timeout.is_normalized(),
        ensures
            match request {
                Ok(r) => {
                    &&& request_verdict(schema_version, timeout, parameters) is Ok
                    &&& r.direction_spec() == direction
                    &&& r.intent_spec() == intent
                    &&& r.prompt_spec() == prompt
                    &&& r.schema_version_spec() == schema_version
                    &&& r.timeout_spec() == timeout
                    &&& r.parameters_spec() == parameters
                },
                Err(e) => request_verdict(schema_version, timeout, parameters) == Err::<
                    (),
                    ProviderRequestError,
                >(e),
            },
    {
        if schema_version == 0 {
            return Err(ProviderRequestError::InvalidSchemaVersion);
        }
        if timeout.is_zero() {
            return Err(ProviderRequestError::InvalidTimeout);
        }
        if !parameters.is_object() {
            return Err(ProviderRequestError::ParametersMustBeObject);
        }
        if contains_secret_key(&parameters) {
            return Err(ProviderRequestError::SecretInParameters);
        }
        Ok(ProviderTranslationRequest { direction, intent, prompt, schema_version, timeout, parameters })
    }

    /// Creates a request that contains no credential material.
    pub fn new(
        direction: LanguageDirection,
        intent: QueryIntent,
        prompt: CompiledPrompt,
        schema_version: u16,
        timeout: Duration,
        parameters: JsonValue,
    ) -> (request: Result<Self, ProviderRequestError>)
        ensures
            match request {
                Ok(r) => {
                    &&& request_verdict(schema_version, Timeout::of_duration(timeout), parameters) is Ok
                    &&& r.direction_spec() == direction
                    &&& r.intent_spec() == intent
                    &&& r.prompt_spec() == prompt
                    &&& r.schema_version_spec() == schema_version
                    &&& r.timeout_spec() == Timeout::of_duration(timeout)
                    &&& r.parameters_spec() == parameters
                },
                Err(e) => request_verdict(schema_version, Timeout::of_duration(timeout), parameters)
                    == Err::<(), ProviderRequestError>(e),
            },
    {
        Self::from_timeout(
            direction,
            intent,
            prompt,
            schema_version,
            Timeout::from_duration(timeout),
            parameters,
        )
    }

    pub fn direction(&self) -> (direction: LanguageDirection)
        ensures
            direction == self.direction_spec(),
    {
        self.direction
    }

    pub fn intent(&self) -> (intent: QueryIntent)
        ensures
            intent == self.intent_spec(),
    {
        self.intent
    }

    pub fn prompt(&self) -> (prompt: &CompiledPrompt)
        ensures
            *prompt == self.prompt_spec(),
    {
        &self.prompt
    }

    pub fn schema_version(&self) -> (version: u16)
        ensures
            version == self.schema_version_spec(),
            version > 0,
    {
        proof {
            use_type_invariant(self);
        }
        self.schema_version
    }

    pub fn timeout(&self) -> (timeout: Duration)
        ensures
            Timeout::of_duration(timeout) == self.timeout_spec(),
    {
        proof {
            use_type_invariant(self);
        }
        self.timeout.to_duration()
    }

    /// The timeout's parts.
    pub fn timeout_parts(&self) -> (timeout: Timeout)
        ensures
            timeout == self.timeout_spec(),
            timeout.is_normalized(),
            !timeout.is_zero_spec(),
    {
        proof {
            use_type_invariant(self);
        }
        self.timeout
    }

    pub fn parameters(&self) -> (parameters: &JsonValue)
        ensures
            *parameters == self.parameters_spec(),
            parameters.is_object_spec(),
            !has_secret_key(*parameters),
    {
        proof {
            use_type_invariant(self);
        }
        &self.parameters
    }
}

/// Safe validation failures for a provider request before network I/O begins.
#[derive(Clone, Copy, Debug, PartialEq, Eq, Structural)]
pub enum ProviderRequestError {
    InvalidSchemaVersion,
    InvalidTimeout,
    ParametersMustBeObject,
    SecretInParameters,
}

/// Classified provider failures that callers can handle without raw response details.
#[derive(Clone, Copy, Debug, PartialEq, Eq, Structural)]
pub enum ProviderErrorKind {
    AuthenticationFailed,
    RateLimited,
    QuotaExceeded,
    ModelUnavailable,
    SafetyRefusal,
    ResponseEmpty,
    ResponseMalformed,
    ResponseSchemaInvalid,
    ResponseTooLarge,
    TimedOut,
    Cancelled,
    Network,
}

impl ProviderErrorKind {
    /// The stable, user-safe code of a failure class.
    pub open spec fn code_spec(self) -> Seq<char> {
        match self {
            ProviderErrorKind::AuthenticationFailed => "translation.provider.authentication_failed"@,
            ProviderErrorKind::RateLimited => "translation.provider.rate_limited"@,
            ProviderErrorKind::QuotaExceeded => "translation.provider.quota_exceeded"@,
            ProviderErrorKind::ModelUnavailable => "translation.provider.model_unavailable"@,
            ProviderErrorKind::SafetyRefusal => "translation.provider.safety_refusal"@,
            ProviderErrorKind::ResponseEmpty => "translation.provider.response_empty"@,
            ProviderErrorKind::ResponseMalformed => "translation.provider.response_malformed"@,
            ProviderErrorKind::ResponseSchemaInvalid => "translation.provider.response_schema_invalid"@,
            ProviderErrorKind::ResponseTooLarge => "translation.provider.response_too_large"@,
            ProviderErrorKind::TimedOut => "translation.provider.timed_out"@,
            ProviderErrorKind::Cancelled => "translation.provider.cancelled"@,
            ProviderErrorKind::Network => "translation.provider.network"@,
        }
    }

    pub fn code(self) -> (code: &'static str)
        ensures
            code@ == self.code_spec(),
    {
        match self {
            ProviderErrorKind::AuthenticationFailed => "translation.provider.authentication_failed",
            ProviderErrorKind::RateLimited => "translation.provider.rate_limited",
            ProviderErrorKind::QuotaExceeded => "translation.provider.quota_exceeded",
            ProviderErrorKind::ModelUnavailable => "translation.provider.model_unavailable",
            ProviderErrorKind::SafetyRefusal => "translation.provider.safety_refusal",
            ProviderErrorKind::ResponseEmpty => "translation.provider.response_empty",
            ProviderErrorKind::ResponseMalformed => "translation.provider.response_malformed",
            ProviderErrorKind::ResponseSchemaInvalid => "translation.provider.response_schema_invalid",
            ProviderErrorKind::ResponseTooLarge => "translation.provider.response_too_large",
            ProviderErrorKind::TimedOut => "translation.provider.timed_out",
            ProviderErrorKind::Cancelled => "translation.provider.cancelled",
            ProviderErrorKind::Network => "translation.provider.network",
        }
    }
}

/// A redacted provider failure.
#[derive(Clone, Copy, Debug, PartialEq, Eq, Structural)]
pub struct ProviderError {
    kind: ProviderErrorKind,
}

impl ProviderError {
    pub closed spec fn kind_spec(self) -> ProviderErrorKind {
        self.kind
    }

    /// The failure of a given class.
    pub closed spec fn of_kind(kind: ProviderErrorKind) -> Self {
        ProviderError { kind }
    }

    pub fn new(kind: ProviderErrorKind) -> (error: Self)
        ensures
            error.kind_spec() == kind,
            error == Self::of_kind(kind),
    {
        ProviderError { kind }
    }

    pub fn kind(self) -> (kind: ProviderErrorKind)
        ensures
            kind == self.kind_spec(),
    {
        self.kind
    }

    pub fn code(self) -> (code: &'static str)
        ensures
            code@ == self.kind_spec().code_spec(),
    {
        self.kind.code()
    }

    /// The public description of the failure: its stable code and nothing else.
    pub fn to_string(&self) -> (text: String)
        ensures
            text@ == self.kind_spec().code_spec(),
    {
        self.kind.code().to_string()
    }
}


/// An HTTP status in the success class (2xx).
pub open spec fn is_success_status(status: u16) -> bool {
    200 <= status && status <= 299
}

/// A text that is not blank.
pub open spec fn nonblank(text: Option<Seq<char>>) -> Option<Seq<char>> {
    match text {
        Some(t) => if is_blank_spec(t) {
            None
        } else {
            Some(t)
        },
        None => None,
    }
}

/// Keeps a text only when it is not blank.
pub fn nonblank_exec(text: Option<&str>) -> (kept: Option<&str>)
    ensures
        match nonblank(
            match text {
                Some(t) => Some(t@),
                None => None,
            },
        ) {
            Some(t) => kept matches Some(k) && k@ == t && text == Some(k),
            None => kept is None,
        },
{
    match text {
        Some(t) => {
            let chars = chars_of(t);
            if is_blank(chars.as_slice()) {
                None
            } else {
                Some(t)
            }
        },
        None => None,
    }
}

/// What a provider's structured output becomes: a result only when it decoded into the
/// result schema and is a complete result of the requested intent.
pub open spec fn accepted_result_spec(
    decoded: Option<AdaptiveTranslationResult>,
    intent: QueryIntent,
) -> Result<AdaptiveTranslationResult, ProviderError> {
    match decoded {
        None => Err(ProviderError::of_kind(ProviderErrorKind::ResponseSchemaInvalid)),
        Some(result) => if validate_adaptive_result_spec(result, intent) is Ok {
            Ok(result)
        } else {
            Err(ProviderError::of_kind(ProviderErrorKind::ResponseSchemaInvalid))
        },
    }
}

/// Accepts a decoded provider result only when it is complete and of the requested intent.
pub fn accept_result(decoded: Option<AdaptiveTranslationResult>, intent: QueryIntent) -> (accepted:
    Result<AdaptiveTranslationResult, ProviderError>)
    ensures
        accepted == accepted_result_spec(decoded, intent),
{
    match decoded {
        None => Err(ProviderError::new(ProviderErrorKind::ResponseSchemaInvalid)),
        Some(result) => match validate_adaptive_result(&result, intent) {
            Ok(()) => Ok(result),
            Err(_) => Err(ProviderError::new(ProviderErrorKind::ResponseSchemaInvalid)),
        },
    }
}


/// The request every adapter contract check sends: a Standard-mode English to Simplified
/// Chinese sentence request for "hello", with a 30-second timeout and a temperature option.
pub fn provider_request() -> (request: ProviderTranslationRequest)
    ensures
        request.direction_spec().source_spec() == Language::English,
        request.direction_spec().target_spec() == Language::ChineseSimplified,
        request.intent_spec() == QueryIntent::Sentence,
        request.schema_version_spec() == 1,
        request.timeout_spec() == Timeout::from_secs_spec(30),
        request.prompt_spec().user_content_spec() == "hello"@,
{
    let direction = LanguageDirection::new(Language::English, Language::ChineseSimplified).unwrap();
    let prompt = PromptCompiler::compile(
        &BuiltInTranslationMode::Standard.snapshot(),
        direction,
        QueryIntent::Sentence,
        1,
        "hello",
    );
    let mut options: Vec<(String, JsonValue)> = Vec::new();
    options.push(("temperature".to_string(), JsonValue::Number("0.2".to_string())));
    let parameters = JsonValue::Object(options);
    proof {
        reveal_strlit("temperature");
        reveal_strlit("api_key");
        reveal_strlit("authorization");
        reveal_strlit("secret");
        reveal_strlit("token");
        let entries = options@;
        assert(!crate::json::is_secret_key_name(entries[0].0@));
        assert(!has_secret_key(entries[0].1));
        assert(!has_secret_key(parameters));
    }
    ProviderTranslationRequest::from_timeout(
        direction,
        QueryIntent::Sentence,
        prompt,
        1,
        Timeout::from_secs(30),
        parameters,
    ).unwrap()
}

/// The classified failures a scripted provider returns after its one success, in order.
pub open spec fn scripted_failures() -> Seq<ProviderErrorKind> {
    seq![
        ProviderErrorKind::AuthenticationFailed,
        ProviderErrorKind::RateLimited,
        ProviderErrorKind::QuotaExceeded,
        ProviderErrorKind::ModelUnavailable,
        ProviderErrorKind::SafetyRefusal,
        ProviderErrorKind::ResponseEmpty,
        ProviderErrorKind::ResponseMalformed,
        ProviderErrorKind::ResponseSchemaInvalid,
        ProviderErrorKind::ResponseTooLarge,
        ProviderErrorKind::TimedOut,
    ]
}

/// A scripted provider double: it answers with its outcomes in order.
pub struct FixtureProvider {
    outcomes: Vec<Result<AdaptiveTranslationResult, ProviderError>>,
}

impl FixtureProvider {
    /// The outcomes still to be returned, the next one first.
    pub closed spec fn outcomes_spec(&self) -> Seq<Result<AdaptiveTranslationResult, ProviderError>> {
        self.outcomes@
    }

    /// How many scripted outcomes are still to be returned.
    pub fn remaining(&self) -> (count: usize)
        ensures
            count == self.outcomes_spec().len(),
    {
        self.outcomes.len()
    }

    /// Answers one request: a cancelled request fails as cancelled without using an outcome;
    /// otherwise the next scripted outcome is returned.
    pub fn translate(&mut self, _request: &ProviderTranslationRequest, cancelled: bool) -> (outcome:
        Result<AdaptiveTranslationResult, ProviderError>)
        requires
            cancelled || old(self).outcomes_spec().len() > 0,
        ensures
            cancelled ==> outcome == Err::<AdaptiveTranslationResult, ProviderError>(
                ProviderError::of_kind(ProviderErrorKind::Cancelled),
            ) && final(self).outcomes_spec() == old(self).outcomes_spec(),
            !cancelled ==> outcome == old(self).outcomes_spec()[0] && final(self).outcomes_spec()
                == old(self).outcomes_spec().drop_first(),
    {
        if cancelled {
            return Err(ProviderError::new(ProviderErrorKind::Cancelled));
        }
        let outcome = self.outcomes.remove(0);
        assert(self.outcomes@ =~= old(self).outcomes_spec().drop_first());
        outcome
    }
}

/// A provider double scripted with one complete sentence result ("你好"), then each
/// classified failure of `scripted_failures` in order.
pub fn fixture_provider() -> (provider: FixtureProvider)
    ensures
        provider.outcomes_spec().len() == 1 + scripted_failures().len(),
        provider.outcomes_spec()[0] matches Ok(AdaptiveTranslationResult::Sentence(s)) && s.schema_version
            == 1 && s.primary_translation@ == "你好"@ && s.wording_notes@.len() == 0
            && s.grammar_notes@.len() == 0,
        forall|k: int|
            0 <= k < scripted_failures().len() ==> provider.outcomes_spec()[k + 1]
                == Err::<AdaptiveTranslationResult, ProviderError>(
                ProviderError::of_kind(#[trigger] scripted_failures()[k]),
            ),
{
    let mut outcomes: Vec<Result<AdaptiveTranslationResult, ProviderError>> = Vec::new();
    outcomes.push(
        Ok(
            AdaptiveTranslationResult::Sentence(
                SentenceResultV1 {
                    schema_version: 1,
                    primary_translation: "你好".to_string(),
                    wording_notes: Vec::new(),
                    grammar_notes: Vec::new(),
                },
            ),
        ),
    );
    outcomes.push(Err(ProviderError::new(ProviderErrorKind::AuthenticationFailed)));
    outcomes.push(Err(ProviderError::new(ProviderErrorKind::RateLimited)));
    outcomes.push(Err(ProviderError::new(ProviderErrorKind::QuotaExceeded)));
    outcomes.push(Err(ProviderError::new(ProviderErrorKind::ModelUnavailable)));
    outcomes.push(Err(ProviderError::new(ProviderErrorKind::SafetyRefusal)));
    outcomes.push(Err(ProviderError::new(ProviderErrorKind::ResponseEmpty)));
    outcomes.push(Err(ProviderError::new(ProviderErrorKind::ResponseMalformed)));
    outcomes.push(Err(ProviderError::new(ProviderErrorKind::ResponseSchemaInvalid)));
    outcomes.push(Err(ProviderError::new(ProviderErrorKind::ResponseTooLarge)));
    outcomes.push(Err(ProviderError::new(ProviderErrorKind::TimedOut)));
    let provider = FixtureProvider { outcomes };
    assert forall|k: int| 0 <= k < scripted_failures().len() implies provider.outcomes_spec()[k + 1]
        == Err::<AdaptiveTranslationResult, ProviderError>(
        ProviderError::of_kind(#[trigger] scripted_failures()[k]),
    ) by {
        assert(0 <= k < 10);
    }
    provider
}

} // verus!
