use vstd::prelude::*;

use crate::domain::language::LanguageDirection;
use crate::domain::query_intent::QueryIntent;
use crate::domain::translation_mode::TranslationModeSnapshot;
use crate::text::{decimal_spec, push_decimal, push_str};

verus! {

/// Immutable three-layer prompt handed to a provider adapter.
#[derive(Clone, Debug, PartialEq, Eq)]
pub struct CompiledPrompt {
    system_contract: String,
    mode_instruction: String,
    user_content: String,
}

impl CompiledPrompt {
    pub closed spec fn system_contract_spec(&self) -> Seq<char> {
        self.system_contract@
    }

    pub closed spec fn mode_instruction_spec(&self) -> Seq<char> {
        self.mode_instruction@
    }

    pub closed spec fn user_content_spec(&self) -> Seq<char> {
        self.user_content@
    }

    pub fn system_contract(&self) -> (text: &str)
        ensures
            text@ == self.system_contract_spec(),
    {
        self.system_contract.as_str()
    }

    pub fn mode_instruction(&self) -> (text: &str)
        ensures
            text@ == self.mode_instruction_spec(),
    {
        self.mode_instruction.as_str()
    }

    pub fn user_content(&self) -> (text: &str)
        ensures
            text@ == self.user_content_spec(),
    {
        self.user_content.as_str()
    }
}

/// The `Debug` name of a query intent.
pub open spec fn intent_name(intent: QueryIntent) -> Seq<char> {
    match intent {
        QueryIntent::Word => "Word"@,
        QueryIntent::Phrase => "Phrase"@,
        QueryIntent::Sentence => "Sentence"@,
        QueryIntent::LongText => "LongText"@,
    }
}

fn intent_name_exec(intent: QueryIntent) -> (name: &'static str)
    ensures
        name@ == intent_name(intent),
{
    match intent {
        QueryIntent::Word => "Word",
        QueryIntent::Phrase => "Phrase",
        QueryIntent::Sentence => "Sentence",
        QueryIntent::LongText => "LongText",
    }
}

/// The fixed system layer: direction, intent and schema version, never user text.
pub open spec fn system_contract_text(
    direction: LanguageDirection,
    intent: QueryIntent,
    schema_version: u16,
) -> Seq<char> {
    "source language: "@ + direction.source_spec().bcp47_spec() + "; target language: "@
        + direction.target_spec().bcp47_spec() + "; intent: "@ + intent_name(intent)
        + "; schema version: "@ + decimal_spec(schema_version as nat)
        + "; return only a complete validated result."@
}

/// Compiles fixed system constraints, mode direction and untrusted user data separately.
pub struct PromptCompiler;

impl PromptCompiler {
    pub fn compile(
        mode: &TranslationModeSnapshot,
        direction: LanguageDirection,
        intent: QueryIntent,
        schema_version: u16,
        user_content: &str,
    ) -> (prompt: CompiledPrompt)
        ensures
            prompt.system_contract_spec() == system_contract_text(direction, intent, schema_version),
            prompt.mode_instruction_spec() == mode.instruction_spec(),
            prompt.user_content_spec() == user_content@,
    {
        let mut system_contract = String::new();
        push_str(&mut system_contract, "source language: ");
        push_str(&mut system_contract, direction.source().bcp47());
        push_str(&mut system_contract, "; target language: ");
        push_str(&mut system_contract, direction.target().bcp47());
        push_str(&mut system_contract, "; intent: ");
        push_str(&mut system_contract, intent_name_exec(intent));
        push_str(&mut system_contract, "; schema version: ");
        push_decimal(&mut system_contract, schema_version as u64);
        push_str(&mut system_contract, "; return only a complete validated result.");
        CompiledPrompt {
            system_contract,
            mode_instruction: mode.instruction().to_owned(),
            user_content: user_content.to_owned(),
        }
    }
}

} // verus!
