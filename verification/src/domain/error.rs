use vstd::prelude::*;

use crate::domain::query_intent::QueryIntent;
use crate::domain::translation::AttemptStatus;
use crate::text::{decimal_spec, push_decimal, push_str};

verus! {

/// A complete-result payload violates the result contract.
#[derive(Clone, Copy, Debug, PartialEq, Eq, Structural)]
pub enum ResultValidationError {
    IntentMismatch { expected: QueryIntent, actual: QueryIntent },
    UnsupportedSchemaVersion { received: u16 },
    EmptyPrimaryTranslation,
    EmptyParagraphs,
    EmptyParagraphSource { index: u32 },
    EmptyParagraphTranslation { index: u32 },
    DuplicateParagraphIndex { index: u32 },
    MissingParagraphIndexes,
}

/// A requested attempt status change violates the attempt state machine.
#[derive(Clone, Copy, Debug, PartialEq, Eq, Structural)]
pub enum AttemptTransitionError {
    IllegalTransition { from: AttemptStatus, to: AttemptStatus },
    RetryRequiresCompletedAttempt,
    RetryMustUseNewAttemptId,
    RetryMustIncreaseResultVersion,
}

/// The name under which an intent appears in messages.
pub open spec fn intent_name(intent: QueryIntent) -> Seq<char> {
    match intent {
        QueryIntent::Word => "Word"@,
        QueryIntent::Phrase => "Phrase"@,
        QueryIntent::Sentence => "Sentence"@,
        QueryIntent::LongText => "LongText"@,
    }
}

/// The name under which an attempt status appears in messages.
pub open spec fn status_name(status: AttemptStatus) -> Seq<char> {
    match status {
        AttemptStatus::NotRequested => "NotRequested"@,
        AttemptStatus::Queued => "Queued"@,
        AttemptStatus::Running => "Running"@,
        AttemptStatus::Succeeded => "Succeeded"@,
        AttemptStatus::Failed => "Failed"@,
        AttemptStatus::Cancelled => "Cancelled"@,
    }
}

fn intent_label(intent: QueryIntent) -> (name: &'static str)
    ensures
        name@ == intent_name(intent),
{
    match intent {
        QueryIntent::Word => "Word",
        QueryIntent::Phrase => "Phrase",
        QueryIntent::Sentence => "Sentence",
        QueryIntent::LongText => "LongText",
    }
}

fn status_label(status: AttemptStatus) -> (name: &'static str)
    ensures
        name@ == status_name(status),
{
    match status {
        AttemptStatus::NotRequested => "NotRequested",
        AttemptStatus::Queued => "Queued",
        AttemptStatus::Running => "Running",
        AttemptStatus::Succeeded => "Succeeded",
        AttemptStatus::Failed => "Failed",
        AttemptStatus::Cancelled => "Cancelled",
    }
}

impl ResultValidationError {
    /// The human-readable description of the violation.
    pub open spec fn message_spec(self) -> Seq<char> {
        match self {
            ResultValidationError::IntentMismatch { expected, actual } => "result intent "@
                + intent_name(actual) + " does not match "@ + intent_name(expected),
            ResultValidationError::UnsupportedSchemaVersion { received } =>
                "unsupported result schema version "@ + decimal_spec(received as nat),
            ResultValidationError::EmptyPrimaryTranslation =>
                "primary translation must not be empty"@,
            ResultValidationError::EmptyParagraphs => "long-text result must contain paragraphs"@,
            ResultValidationError::EmptyParagraphSource { index } => "long-text paragraph "@
                + decimal_spec(index as nat) + " has no source text"@,
            ResultValidationError::EmptyParagraphTranslation { index } => "long-text paragraph "@
                + decimal_spec(index as nat) + " has no translation"@,
            ResultValidationError::DuplicateParagraphIndex { index } =>
                "long-text paragraph index "@ + decimal_spec(index as nat) + " is duplicated"@,
            ResultValidationError::MissingParagraphIndexes =>
                "long-text paragraph indexes must start at zero and be contiguous"@,
        }
    }

    /// Describes the violation in words.
    pub fn to_string(&self) -> (text: String)
        ensures
            text@ == self.message_spec(),
    {
        let mut text = String::new();
        match *self {
            ResultValidationError::IntentMismatch { expected, actual } => {
                push_str(&mut text, "result intent ");
                push_str(&mut text, intent_label(actual));
                push_str(&mut text, " does not match ");
                push_str(&mut text, intent_label(expected));
            },
            ResultValidationError::UnsupportedSchemaVersion { received } => {
                push_str(&mut text, "unsupported result schema version ");
                push_decimal(&mut text, received as u64);
            },
            ResultValidationError::EmptyPrimaryTranslation => {
                push_str(&mut text, "primary translation must not be empty");
            },
            ResultValidationError::EmptyParagraphs => {
                push_str(&mut text, "long-text result must contain paragraphs");
            },
            ResultValidationError::EmptyParagraphSource { index } => {
                push_str(&mut text, "long-text paragraph ");
                push_decimal(&mut text, index as u64);
                push_str(&mut text, " has no source text");
            },
            ResultValidationError::EmptyParagraphTranslation { index } => {
                push_str(&mut text, "long-text paragraph ");
                push_decimal(&mut text, index as u64);
                push_str(&mut text, " has no translation");
            },
            ResultValidationError::DuplicateParagraphIndex { index } => {
                push_str(&mut text, "long-text paragraph index ");
                push_decimal(&mut text, index as u64);
                push_str(&mut text, " is duplicated");
            },
            ResultValidationError::MissingParagraphIndexes => {
                push_str(
                    &mut text,
                    "long-text paragraph indexes must start at zero and be contiguous",
                );
            },
        }
        assert(text@ =~= self.message_spec());
        text
    }
}

impl AttemptTransitionError {
    /// The human-readable description of the refused change.
    pub open spec fn message_spec(self) -> Seq<char> {
        match self {
            AttemptTransitionError::IllegalTransition { from, to } =>
                "cannot transition attempt from "@ + status_name(from) + " to "@ + status_name(to),
            AttemptTransitionError::RetryRequiresCompletedAttempt =>
                "only a succeeded or failed attempt can be retried"@,
            AttemptTransitionError::RetryMustUseNewAttemptId =>
                "a retry must use a new attempt identifier"@,
            AttemptTransitionError::RetryMustIncreaseResultVersion =>
                "a retry must increase the result version"@,
        }
    }

    /// Describes the refused change in words.
    pub fn to_string(&self) -> (text: String)
        ensures
            text@ == self.message_spec(),
    {
        let mut text = String::new();
        match *self {
            AttemptTransitionError::IllegalTransition { from, to } => {
                push_str(&mut text, "cannot transition attempt from ");
                push_str(&mut text, status_label(from));
                push_str(&mut text, " to ");
                push_str(&mut text, status_label(to));
            },
            AttemptTransitionError::RetryRequiresCompletedAttempt => {
                push_str(&mut text, "only a succeeded or failed attempt can be retried");
            },
            AttemptTransitionError::RetryMustUseNewAttemptId => {
                push_str(&mut text, "a retry must use a new attempt identifier");
            },
            AttemptTransitionError::RetryMustIncreaseResultVersion => {
                push_str(&mut text, "a retry must increase the result version");
            },
        }
        assert(text@ =~= self.message_spec());
        text
    }
}

} // verus!
