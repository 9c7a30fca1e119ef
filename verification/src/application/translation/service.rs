use vstd::prelude::*;

use std::time::Duration;

use crate::application::translation::classifier::{classification_spec, IntentClassifier};
use crate::application::translation::language_direction::{
    resolved_source, resolved_target, DirectionResolutionError, LanguageDirectionPreferences,
    LanguageDirectionResolver, TargetLanguageSelection,
};
use crate::application::translation::ports::{LanguageDetection, LanguageDetectorPort};
use crate::application::translation::prompt_compiler::{system_contract_text, PromptCompiler};
use crate::domain::language::{LanguageDirection, LanguageSelection};
use crate::domain::provider::Timeout;
use crate::domain::query_intent::{IntentSelection, QueryIntent};
use crate::domain::translation::uuid_text;
use crate::domain::translation_mode::TranslationModeSnapshot;
use crate::infrastructure::ai::contract_fixtures::{
    request_verdict, ProviderError, ProviderRequestError, ProviderTranslationRequest,
};
use crate::json::{duplicate_json, json_equal, json_equal_exec, JsonValue};
use crate::text::{chars_of, is_control, is_control_spec, str_equal, string_of, trim, trim_spec};

verus! {

/// Line breaks made uniform: each `"\r\n"` and each other `'\r'` becomes `'\n'`.
pub open spec fn normalize_newlines(s: Seq<char>) -> Seq<char>
    decreases s.len(),
{
    if s.len() == 0 {
        s
    } else if s[0] == '\r' && s.len() > 1 && s[1] == '\n' {
        seq!['\n'] + normalize_newlines(s.skip(2))
    } else if s[0] == '\r' {
        seq!['\n'] + normalize_newlines(s.skip(1))
    } else {
        seq![s[0]] + normalize_newlines(s.skip(1))
    }
}

/// The submitted text as it is translated: uniform line breaks, no surrounding white space.
pub open spec fn normalized_text(s: Seq<char>) -> Seq<char> {
    trim_spec(normalize_newlines(s))
}

/// Every character is a control character.
pub open spec fn all_control(s: Seq<char>) -> bool {
    forall|i: int| 0 <= i < s.len() ==> is_control_spec(#[trigger] s[i])
}

/// Makes line breaks uniform and trims surrounding white space.
pub fn normalize_text(input: &str) -> (text: String)
    ensures
        text@ == normalized_text(input@),
{
    let chars = chars_of(input);
    let n = chars.len();
    let mut out: Vec<char> = Vec::new();
    let mut i: usize = 0;
    assert(chars@.skip(0) =~= chars@);
    while i < n
        invariant
            n == chars@.len(),
            i <= n,
            out@ + normalize_newlines(chars@.skip(i as int)) == normalize_newlines(chars@),
        decreases n - i,
    {
        let ghost rest = chars@.skip(i as int);
        if chars[i] == '\r' && i + 1 < n && chars[i + 1] == '\n' {
            assert(rest.skip(2) =~= chars@.skip(i + 2));
            out.push('\n');
            i = i + 2;
        } else if chars[i] == '\r' {
            assert(rest.skip(1) =~= chars@.skip(i + 1));
            out.push('\n');
            i = i + 1;
        } else {
            assert(rest.skip(1) =~= chars@.skip(i + 1));
            out.push(chars[i]);
            i = i + 1;
        }
        assert(out@ + normalize_newlines(chars@.skip(i as int)) =~= normalize_newlines(chars@));
    }
    assert(chars@.skip(n as int) =~= Seq::<char>::empty());
    assert(out@ =~= normalize_newlines(input@));
    let trimmed = trim(out.as_slice());
    string_of(trimmed.as_slice())
}

fn all_control_exec(text: &[char]) -> (control: bool)
    ensures
        control == all_control(text@),
{
    let mut i: usize = 0;
    while i < text.len()
        invariant
            i <= text@.len(),
            forall|j: int| 0 <= j < i ==> is_control_spec(#[trigger] text@[j]),
        decreases text@.len() - i,
    {
        if !is_control(text[i]) {
            return false;
        }
        i = i + 1;
    }
    true
}

/// User-editable input captured at submission time before any provider request begins.
#[derive(Debug)]
pub struct TranslationDraft {
    pub text: String,
    pub source: LanguageSelection,
    pub target: TargetLanguageSelection,
    pub intent: IntentSelection,
    pub mode: TranslationModeSnapshot,
    pub timeout: Duration,
    pub parameters: JsonValue,
}

/// Non-secret immutable input/configuration data captured for one attempt.
#[derive(Clone, Debug, PartialEq, Eq)]
pub struct TranslationConfigurationSnapshot {
    text: String,
    source_language: String,
    target_language: String,
    intent: QueryIntent,
    mode_id: String,
    mode_version: u32,
    timeout: Timeout,
    parameters: JsonValue,
}

/// Stable, typed comparison of two frozen attempt configurations: one bit per aspect.
#[derive(Clone, Copy, Debug, PartialEq, Eq, Structural)]
pub struct ConfigurationDiff {
    changes: u8,
}

/// The bit of each aspect in a configuration diff.
pub const TEXT_CHANGED: u8 = 1;

pub const DIRECTION_CHANGED: u8 = 2;

pub const INTENT_CHANGED: u8 = 4;

pub const MODE_CHANGED: u8 = 8;

pub const TIMEOUT_CHANGED: u8 = 16;

pub const PARAMETERS_CHANGED: u8 = 32;

pub open spec fn bit(flag: bool, value: u8) -> u8 {
    if flag {
        value
    } else {
        0
    }
}

proof fn lemma_flag_bits(a: bool, b: bool, c: bool, d: bool, e: bool, f: bool)
    ensures
        ({
            let x = (bit(a, 1) + bit(b, 2) + bit(c, 4) + bit(d, 8) + bit(e, 16) + bit(f, 32)) as u8;
            &&& (x & 1 != 0) == a
            &&& (x & 2 != 0) == b
            &&& (x & 4 != 0) == c
            &&& (x & 8 != 0) == d
            &&& (x & 16 != 0) == e
            &&& (x & 32 != 0) == f
        }),
{
    let (va, vb, vc, vd, ve, vf) = (bit(a, 1), bit(b, 2), bit(c, 4), bit(d, 8), bit(e, 16), bit(
        f,
        32,
    ));
    assert(((va == 1u8) || (va == 0u8)) && ((vb == 2u8) || (vb == 0u8)) && ((vc == 4u8) || (vc
        == 0u8)) && ((vd == 8u8) || (vd == 0u8)) && ((ve == 16u8) || (ve == 0u8)) && ((vf == 32u8)
        || (vf == 0u8)) ==> ({
        let x = (va + vb + vc + vd + ve + vf) as u8;
        &&& (x & 1 != 0) == (va == 1u8)
        &&& (x & 2 != 0) == (vb == 2u8)
        &&& (x & 4 != 0) == (vc == 4u8)
        &&& (x & 8 != 0) == (vd == 8u8)
        &&& (x & 16 != 0) == (ve == 16u8)
        &&& (x & 32 != 0) == (vf == 32u8)
    })) by (bit_vector);
}

impl ConfigurationDiff {
    pub closed spec fn changes_spec(self) -> u8 {
        self.changes
    }

    pub open spec fn text_changed_spec(self) -> bool {
        self.changes_spec() & TEXT_CHANGED != 0
    }

    pub open spec fn direction_changed_spec(self) -> bool {
        self.changes_spec() & DIRECTION_CHANGED != 0
    }

    pub open spec fn intent_changed_spec(self) -> bool {
        self.changes_spec() & INTENT_CHANGED != 0
    }

    pub open spec fn mode_changed_spec(self) -> bool {
        self.changes_spec() & MODE_CHANGED != 0
    }

    pub open spec fn timeout_changed_spec(self) -> bool {
        self.changes_spec() & TIMEOUT_CHANGED != 0
    }

    pub open spec fn parameters_changed_spec(self) -> bool {
        self.changes_spec() & PARAMETERS_CHANGED != 0
    }

    pub fn text_changed(self) -> (changed: bool)
        ensures
            changed == self.text_changed_spec(),
    {
        self.changes & TEXT_CHANGED != 0
    }

    pub fn direction_changed(self) -> (changed: bool)
        ensures
            changed == self.direction_changed_spec(),
    {
        self.changes & DIRECTION_CHANGED != 0
    }

    pub fn intent_changed(self) -> (changed: bool)
        ensures
            changed == self.intent_changed_spec(),
    {
        self.changes & INTENT_CHANGED != 0
    }

    pub fn mode_changed(self) -> (changed: bool)
        ensures
            changed == self.mode_changed_spec(),
    {
        self.changes & MODE_CHANGED != 0
    }

    pub fn timeout_changed(self) -> (changed: bool)
        ensures
            changed == self.timeout_changed_spec(),
    {
        self.changes & TIMEOUT_CHANGED != 0
    }

    pub fn parameters_changed(self) -> (changed: bool)
        ensures
            changed == self.parameters_changed_spec(),
    {
        self.changes & PARAMETERS_CHANGED != 0
    }
}

/// `diff` flags exactly the aspects in which `current` differs from `previous`.
pub open spec fn is_diff_of(
    previous: TranslationConfigurationSnapshot,
    current: TranslationConfigurationSnapshot,
    diff: ConfigurationDiff,
) -> bool {
    &&& diff.text_changed_spec() == (previous.text_spec() != current.text_spec())
    &&& diff.direction_changed_spec() == (previous.source_language_spec()
        != current.source_language_spec() || previous.target_language_spec()
        != current.target_language_spec())
    &&& diff.intent_changed_spec() == (previous.intent_spec() != current.intent_spec())
    &&& diff.mode_changed_spec() == (previous.mode_id_spec() != current.mode_id_spec()
        || previous.mode_version_spec() != current.mode_version_spec())
    &&& diff.timeout_changed_spec() == (previous.timeout_spec() != current.timeout_spec())
    &&& diff.parameters_changed_spec() == !json_equal(
        previous.parameters_spec(),
        current.parameters_spec(),
    )
}

impl TranslationConfigurationSnapshot {
    pub closed spec fn text_spec(&self) -> Seq<char> {
        self.text@
    }

    pub closed spec fn source_language_spec(&self) -> Seq<char> {
        self.source_language@
    }

    pub closed spec fn target_language_spec(&self) -> Seq<char> {
        self.target_language@
    }

    pub closed spec fn intent_spec(&self) -> QueryIntent {
        self.intent
    }

    pub closed spec fn mode_id_spec(&self) -> Seq<char> {
        self.mode_id@
    }

    pub closed spec fn mode_version_spec(&self) -> u32 {
        self.mode_version
    }

    pub closed spec fn timeout_spec(&self) -> Timeout {
        self.timeout
    }

    pub closed spec fn parameters_spec(&self) -> JsonValue {
        self.parameters
    }

    /// Which aspects differ between this configuration and `current`.
    pub fn diff(&self, current: &Self) -> (diff: ConfigurationDiff)
        ensures
            is_diff_of(*self, *current, diff),
    {
        let text = !str_equal(self.text.as_str(), current.text.as_str());
        let direction = !str_equal(self.source_language.as_str(), current.source_language.as_str())
            || !str_equal(self.target_language.as_str(), current.target_language.as_str());
        let intent = self.intent != current.intent;
        let mode = !str_equal(self.mode_id.as_str(), current.mode_id.as_str()) || self.mode_version
            != current.mode_version;
        let timeout = self.timeout != current.timeout;
        let parameters = !json_equal_exec(&self.parameters, &current.parameters);
        let changes: u8 = (if text {
            1u8
        } else {
            0u8
        }) + (if direction {
            2u8
        } else {
            0u8
        }) + (if intent {
            4u8
        } else {
            0u8
        }) + (if mode {
            8u8
        } else {
            0u8
        }) + (if timeout {
            16u8
        } else {
            0u8
        }) + (if parameters {
            32u8
        } else {
            0u8
        });
        proof {
            lemma_flag_bits(text, direction, intent, mode, timeout, parameters);
        }
        ConfigurationDiff { changes }
    }
}

/// Immutable, non-secret request snapshot that can be safely handed to a provider adapter.
#[derive(Debug)]
pub struct PreparedTranslation {
    text: String,
    request: ProviderTranslationRequest,
    configuration: TranslationConfigurationSnapshot,
}

impl PreparedTranslation {
    pub closed spec fn text_spec(&self) -> Seq<char> {
        self.text@
    }

    pub closed spec fn request_spec(&self) -> ProviderTranslationRequest {
        self.request
    }

    pub closed spec fn configuration_spec(&self) -> TranslationConfigurationSnapshot {
        self.configuration
    }

    pub fn text(&self) -> (text: &str)
        ensures
            text@ == self.text_spec(),
    {
        self.text.as_str()
    }

    pub fn request(&self) -> (request: &ProviderTranslationRequest)
        ensures
            *request == self.request_spec(),
    {
        &self.request
    }

    pub fn configuration(&self) -> (configuration: &TranslationConfigurationSnapshot)
        ensures
            *configuration == self.configuration_spec(),
    {
        &self.configuration
    }

    /// Splits the prepared translation into its request and its configuration.
    pub fn into_parts(self) -> (parts: (ProviderTranslationRequest, TranslationConfigurationSnapshot))
        ensures
            parts.0 == self.request_spec(),
            parts.1 == self.configuration_spec(),
    {
        (self.request, self.configuration)
    }
}

/// Input validation and local preflight failures.
#[derive(Clone, Copy, Debug, PartialEq, Eq, Structural)]
pub enum PrepareError {
    EmptyText,
    ControlOnlyText,
    Direction(DirectionResolutionError),
    Request(ProviderRequestError),
}

/// Failure from the application submission boundary.
#[derive(Clone, Copy, Debug, PartialEq, Eq, Structural)]
pub enum SubmitError {
    Prepare(PrepareError),
    Provider(ProviderError),
}

/// The first local check that a submitted text fails, if any.
pub open spec fn text_verdict(text: Seq<char>) -> Option<PrepareError> {
    let normalized = normalized_text(text);
    if normalized.len() == 0 {
        Some(PrepareError::EmptyText)
    } else if all_control(normalized) {
        Some(PrepareError::ControlOnlyText)
    } else {
        None
    }
}

/// The language direction of a query, or the direction failure.
pub open spec fn direction_verdict(
    preferences: LanguageDirectionPreferences,
    source: LanguageSelection,
    target: TargetLanguageSelection,
    detection: LanguageDetection,
) -> Result<(crate::domain::language::Language, crate::domain::language::Language), DirectionResolutionError> {
    match resolved_source(source, detection) {
        None => Err(DirectionResolutionError::SourceLanguageUncertain),
        Some(s) => {
            let t = resolved_target(preferences, s, target);
            if s == t {
                Err(DirectionResolutionError::SameLanguage(s))
            } else {
                Ok((s, t))
            }
        },
    }
}

/// A prepared translation is exactly what the draft asks for, given the detection that
/// the text received and the parts of the draft's timeout.
pub open spec fn is_prepared_from(
    prepared: PreparedTranslation,
    preferences: LanguageDirectionPreferences,
    text: Seq<char>,
    source: LanguageSelection,
    target: TargetLanguageSelection,
    intent_selection: IntentSelection,
    mode: TranslationModeSnapshot,
    timeout: Timeout,
    parameters: JsonValue,
    detection: LanguageDetection,
) -> bool {
    let normalized = normalized_text(text);
    let request = prepared.request_spec();
    let configuration = prepared.configuration_spec();
    let direction = request.direction_spec();
    let intent = classification_spec(normalized, intent_selection).0;
    &&& direction_verdict(preferences, source, target, detection) == Ok::<
        (crate::domain::language::Language, crate::domain::language::Language),
        DirectionResolutionError,
    >((direction.source_spec(), direction.target_spec()))
    &&& prepared.text_spec() == normalized
    &&& request.intent_spec() == intent
    &&& request.prompt_spec().system_contract_spec() == system_contract_text(direction, intent, 1)
    &&& request.prompt_spec().mode_instruction_spec() == mode.instruction_spec()
    &&& request.prompt_spec().user_content_spec() == normalized
    &&& request.schema_version_spec() == 1
    &&& request.timeout_spec() == timeout
    &&& request.parameters_spec() == parameters
    &&& configuration.text_spec() == normalized
    &&& configuration.source_language_spec() == direction.source_spec().bcp47_spec()
    &&& configuration.target_language_spec() == direction.target_spec().bcp47_spec()
    &&& configuration.intent_spec() == intent
    &&& configuration.mode_id_spec() == uuid_text(mode.id_spec().value_spec())
    &&& configuration.mode_version_spec() == mode.version_spec()
    &&& configuration.timeout_spec() == timeout
    &&& json_equal(configuration.parameters_spec(), parameters)
}

/// The failure of a draft whose text passed the local checks, if any: the direction, then
/// the request checks.
pub open spec fn preparation_failure(
    preferences: LanguageDirectionPreferences,
    source: LanguageSelection,
    target: TargetLanguageSelection,
    timeout: Timeout,
    parameters: JsonValue,
    detection: LanguageDetection,
) -> Option<PrepareError> {
    match direction_verdict(preferences, source, target, detection) {
        Err(e) => Some(PrepareError::Direction(e)),
        Ok(_) => match request_verdict(1, timeout, parameters) {
            Err(e) => Some(PrepareError::Request(e)),
            Ok(()) => None,
        },
    }
}

/// Creates complete provider-ready snapshots from local data and user-selected settings.
pub struct TranslationService<D> {
    detector: D,
    preferences: LanguageDirectionPreferences,
    classifier: IntentClassifier,
}

impl<D: LanguageDetectorPort> TranslationService<D> {
    pub closed spec fn preferences_spec(&self) -> LanguageDirectionPreferences {
        self.preferences
    }

    pub fn new(detector: D, preferences: LanguageDirectionPreferences) -> (service: Self)
        ensures
            service.preferences_spec() == preferences,
    {
        TranslationService { detector, preferences, classifier: IntentClassifier }
    }

    /// Prepares a draft whose text received `detection`: resolves the direction, classifies
    /// the intent, compiles the prompt, and freezes the request and its configuration.
    pub fn prepare_detected(&self, draft: TranslationDraft, detection: LanguageDetection) -> (prepared:
        Result<PreparedTranslation, PrepareError>)
        ensures
            match text_verdict(draft.text@) {
                Some(e) => prepared == Err::<PreparedTranslation, PrepareError>(e),
                None => match preparation_failure(
                    self.preferences_spec(),
                    draft.source,
                    draft.target,
                    Timeout::of_duration(draft.timeout),
                    draft.parameters,
                    detection,
                ) {
                    Some(e) => prepared == Err::<PreparedTranslation, PrepareError>(e),
                    None => prepared matches Ok(p) && is_prepared_from(
                        p,
                        self.preferences_spec(),
                        draft.text@,
                        draft.source,
                        draft.target,
                        draft.intent,
                        draft.mode,
                        Timeout::of_duration(draft.timeout),
                        draft.parameters,
                        detection,
                    ),
                },
            },
    {
        let timeout = Timeout::from_duration(draft.timeout);
        let text = normalize_text(draft.text.as_str());
        let chars = chars_of(text.as_str());
        if chars.len() == 0 {
            return Err(PrepareError::EmptyText);
        }
        if all_control_exec(chars.as_slice()) {
            return Err(PrepareError::ControlOnlyText);
        }
        let direction = match LanguageDirectionResolver::resolve(
            self.preferences,
            draft.source,
            draft.target,
            &detection,
        ) {
            Ok(d) => d,
            Err(e) => {
                return Err(PrepareError::Direction(e));
            },
        };
        let intent = self.classifier.classify(text.as_str(), draft.intent).intent();
        let prompt = PromptCompiler::compile(&draft.mode, direction, intent, 1, text.as_str());
        let configuration = TranslationConfigurationSnapshot {
            text: text.clone(),
            source_language: direction.source().bcp47().to_string(),
            target_language: direction.target().bcp47().to_string(),
            intent,
            mode_id: draft.mode.id().to_string(),
            mode_version: draft.mode.version(),
            timeout,
            parameters: duplicate_json(&draft.parameters),
        };
        let request = match ProviderTranslationRequest::from_timeout(
            direction,
            intent,
            prompt,
            1,
            timeout,
            draft.parameters,
        ) {
            Ok(r) => r,
            Err(e) => {
                return Err(PrepareError::Request(e));
            },
        };
        Ok(PreparedTranslation { text, request, configuration })
    }

    /// Validates and freezes a normalized, complete non-secret provider request; the text is
    /// handed to the detector only once it passed the local checks.
    pub fn prepare(&self, draft: TranslationDraft) -> (prepared: Result<
        PreparedTranslation,
        PrepareError,
    >)
        ensures
            match text_verdict(draft.text@) {
                Some(e) => prepared == Err::<PreparedTranslation, PrepareError>(e),
                None => exists|detection: LanguageDetection|
                    #![trigger preparation_failure(self.preferences_spec(), draft.source, draft.target, Timeout::of_duration(draft.timeout), draft.parameters, detection)]
                    match preparation_failure(
                        self.preferences_spec(),
                        draft.source,
                        draft.target,
                        Timeout::of_duration(draft.timeout),
                        draft.parameters,
                        detection,
                    ) {
                        Some(e) => prepared == Err::<PreparedTranslation, PrepareError>(e),
                        None => prepared matches Ok(p) && is_prepared_from(
                            p,
                            self.preferences_spec(),
                            draft.text@,
                            draft.source,
                            draft.target,
                            draft.intent,
                            draft.mode,
                            Timeout::of_duration(draft.timeout),
                            draft.parameters,
                            detection,
                        ),
                    },
            },
    {
        let text = normalize_text(draft.text.as_str());
        let chars = chars_of(text.as_str());
        if chars.len() == 0 {
            return Err(PrepareError::EmptyText);
        }
        if all_control_exec(chars.as_slice()) {
            return Err(PrepareError::ControlOnlyText);
        }
        let detection = self.detector.detect(text.as_str());
        self.prepare_detected(draft, detection)
    }
}

} // verus!
