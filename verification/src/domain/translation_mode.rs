use vstd::prelude::*;

use crate::domain::translation::{fresh_uuid_value, TranslationModeId, uuid_version};
use crate::text::{chars_of, contains, contains_spec, is_blank, is_blank_spec, is_control, is_control_spec};

verus! {

/// Whether a translation-mode snapshot is product-owned or user-owned.
#[derive(Clone, Copy, Debug, PartialEq, Eq, Structural)]
pub enum TranslationModeKind {
    BuiltIn,
    Custom,
}

/// The five product-owned translation modes with permanent identifiers.
#[derive(Clone, Copy, Debug, PartialEq, Eq, Structural)]
pub enum BuiltInTranslationMode {
    Standard,
    Literal,
    Natural,
    Academic,
    Concise,
}

impl BuiltInTranslationMode {
    pub const ALL: [BuiltInTranslationMode; 5] = [
        BuiltInTranslationMode::Standard,
        BuiltInTranslationMode::Literal,
        BuiltInTranslationMode::Natural,
        BuiltInTranslationMode::Academic,
        BuiltInTranslationMode::Concise,
    ];

    /// The permanent UUID of a built-in mode.
    pub open spec fn id_value_spec(self) -> u128 {
        match self {
            BuiltInTranslationMode::Standard => 0x018f0a10000070008000000000000001u128,
            BuiltInTranslationMode::Literal => 0x018f0a10000070008000000000000002u128,
            BuiltInTranslationMode::Natural => 0x018f0a10000070008000000000000003u128,
            BuiltInTranslationMode::Academic => 0x018f0a10000070008000000000000004u128,
            BuiltInTranslationMode::Concise => 0x018f0a10000070008000000000000005u128,
        }
    }

    pub open spec fn name_spec(self) -> Seq<char> {
        match self {
            BuiltInTranslationMode::Standard => "Standard"@,
            BuiltInTranslationMode::Literal => "Literal"@,
            BuiltInTranslationMode::Natural => "Natural"@,
            BuiltInTranslationMode::Academic => "Academic"@,
            BuiltInTranslationMode::Concise => "Concise"@,
        }
    }

    pub open spec fn instruction_spec(self) -> Seq<char> {
        match self {
            BuiltInTranslationMode::Standard => "Translate accurately and clearly."@,
            BuiltInTranslationMode::Literal => "Preserve the source wording and structure where natural."@,
            BuiltInTranslationMode::Natural => "Prefer idiomatic target-language expression."@,
            BuiltInTranslationMode::Academic => "Use precise formal terminology and an academic register."@,
            BuiltInTranslationMode::Concise => "Translate concisely without omitting meaning."@,
        }
    }

    /// Returns the immutable, version-one snapshot for this built-in mode.
    pub fn snapshot(self) -> (snapshot: TranslationModeSnapshot)
        ensures
            snapshot.id_spec().value_spec() == self.id_value_spec(),
            snapshot.kind_spec() == TranslationModeKind::BuiltIn,
            snapshot.name_spec() == self.name_spec(),
            snapshot.instruction_spec() == self.instruction_spec(),
            snapshot.version_spec() == 1,
    {
        let (value, name, instruction) = match self {
            BuiltInTranslationMode::Standard => (0x018f0a10000070008000000000000001u128, "Standard", "Translate accurately and clearly."),
            BuiltInTranslationMode::Literal => (0x018f0a10000070008000000000000002u128, "Literal", "Preserve the source wording and structure where natural."),
            BuiltInTranslationMode::Natural => (0x018f0a10000070008000000000000003u128, "Natural", "Prefer idiomatic target-language expression."),
            BuiltInTranslationMode::Academic => (0x018f0a10000070008000000000000004u128, "Academic", "Use precise formal terminology and an academic register."),
            BuiltInTranslationMode::Concise => (0x018f0a10000070008000000000000005u128, "Concise", "Translate concisely without omitting meaning."),
        };
        assert(uuid_version(value) == 7) by (bit_vector)
            requires
                value == 0x018f0a10000070008000000000000001u128 || value == 0x018f0a10000070008000000000000002u128 || value
                    == 0x018f0a10000070008000000000000003u128 || value == 0x018f0a10000070008000000000000004u128 || value
                    == 0x018f0a10000070008000000000000005u128,
        ;
        let id = TranslationModeId::from_uuid_value(value).unwrap();
        TranslationModeSnapshot {
            id,
            kind: TranslationModeKind::BuiltIn,
            name: name.to_owned(),
            instruction: instruction.to_owned(),
            version: 1,
        }
    }
}

/// Immutable query-time mode data; built-ins cannot be edited in place.
#[derive(Clone, Debug, PartialEq, Eq)]
pub struct TranslationModeSnapshot {
    id: TranslationModeId,
    kind: TranslationModeKind,
    name: String,
    instruction: String,
    version: u32,
}

/// The reserved template placeholders that a custom instruction must not contain.
pub open spec fn has_reserved_placeholder(instruction: Seq<char>) -> bool {
    ||| contains_spec(instruction, "{{target_language}}"@)
    ||| contains_spec(instruction, "{{schema"@)
    ||| contains_spec(instruction, "{{system"@)
}

/// A control character other than line feed and tab.
pub open spec fn has_illegal_control(instruction: Seq<char>) -> bool {
    exists|i: int|
        0 <= i < instruction.len() && is_control_spec(#[trigger] instruction[i]) && instruction[i]
            != '\n' && instruction[i] != '\t'
}

fn contains_illegal_control(chars: &[char]) -> (found: bool)
    ensures
        found == has_illegal_control(chars@),
{
    let mut i: usize = 0;
    while i < chars.len()
        invariant
            i <= chars@.len(),
            forall|j: int|
                0 <= j < i ==> !(is_control_spec(#[trigger] chars@[j]) && chars@[j] != '\n'
                    && chars@[j] != '\t'),
        decreases chars@.len() - i,
    {
        let c = chars[i];
        if is_control(c) && c != '\n' && c != '\t' {
            return true;
        }
        i = i + 1;
    }
    false
}

impl TranslationModeSnapshot {
    pub closed spec fn id_spec(&self) -> TranslationModeId {
        self.id
    }

    pub closed spec fn kind_spec(&self) -> TranslationModeKind {
        self.kind
    }

    pub closed spec fn name_spec(&self) -> Seq<char> {
        self.name@
    }

    pub closed spec fn instruction_spec(&self) -> Seq<char> {
        self.instruction@
    }

    pub closed spec fn version_spec(&self) -> u32 {
        self.version
    }

    pub fn id(&self) -> (id: TranslationModeId)
        ensures
            id == self.id_spec(),
    {
        self.id
    }

    pub fn kind(&self) -> (kind: TranslationModeKind)
        ensures
            kind == self.kind_spec(),
    {
        self.kind
    }

    /// Built-in modes are immutable; custom modes are not.
    pub fn is_immutable(&self) -> (immutable: bool)
        ensures
            immutable == (self.kind_spec() == TranslationModeKind::BuiltIn),
    {
        match self.kind {
            TranslationModeKind::BuiltIn => true,
            TranslationModeKind::Custom => false,
        }
    }

    pub fn name(&self) -> (name: &str)
        ensures
            name@ == self.name_spec(),
    {
        self.name.as_str()
    }

    pub fn instruction(&self) -> (instruction: &str)
        ensures
            instruction@ == self.instruction_spec(),
    {
        self.instruction.as_str()
    }

    pub fn version(&self) -> (version: u32)
        ensures
            version == self.version_spec(),
    {
        self.version
    }

    /// An editable version-one custom copy with this instruction and a fresh identifier: a
    /// generated version 7 identifier, with its low bits flipped by `fresh_uuid_value` in the
    /// unlikely case that it equals this mode's identifier.
    pub fn copy_as_custom(&self, name: &str) -> (copy: Self)
        ensures
            uuid_version(copy.id_spec().value_spec()) == 7,
            copy.id_spec() != self.id_spec(),
            copy.kind_spec() == TranslationModeKind::Custom,
            copy.name_spec() == name@,
            copy.instruction_spec() == self.instruction_spec(),
            copy.version_spec() == 1,
    {
        let generated = TranslationModeId::generate().uuid_value();
        let taken = vec![self.id.uuid_value()];
        let value = fresh_uuid_value(generated, taken.as_slice());
        assert(taken@.contains(self.id_spec().value_spec())) by {
            assert(taken@[0] == self.id_spec().value_spec());
        }
        let id = match TranslationModeId::from_uuid_value(value) {
            Some(id) => id,
            None => {
                assert(false);
                TranslationModeId::generate()
            },
        };
        TranslationModeSnapshot {
            id,
            kind: TranslationModeKind::Custom,
            name: name.to_owned(),
            instruction: self.instruction.clone(),
            version: 1,
        }
    }

    /// Updates a custom mode and advances its snapshot version.
    pub fn edit(&mut self, name: &str, instruction: &str) -> (outcome: Result<
        (),
        TranslationModeEditError,
    >)
        ensures
            old(self).kind_spec() == TranslationModeKind::BuiltIn ==> outcome == Err::<
                (),
                TranslationModeEditError,
            >(TranslationModeEditError::BuiltInImmutable) && *final(self) == *old(self),
            old(self).kind_spec() == TranslationModeKind::Custom && (is_blank_spec(name@)
                || is_blank_spec(instruction@)) ==> outcome == Err::<
                (),
                TranslationModeEditError,
            >(TranslationModeEditError::EmptyField) && *final(self) == *old(self),
            old(self).kind_spec() == TranslationModeKind::Custom && !is_blank_spec(name@)
                && !is_blank_spec(instruction@) && has_illegal_control(instruction@) ==> outcome
                == Err::<(), TranslationModeEditError>(
                TranslationModeEditError::IllegalControlCharacter,
            ) && *final(self) == *old(self),
            old(self).kind_spec() == TranslationModeKind::Custom && !is_blank_spec(name@)
                && !is_blank_spec(instruction@) && !has_illegal_control(instruction@)
                && has_reserved_placeholder(instruction@) ==> outcome == Err::<
                (),
                TranslationModeEditError,
            >(TranslationModeEditError::ReservedPlaceholder) && *final(self) == *old(self),
            old(self).kind_spec() == TranslationModeKind::Custom && !is_blank_spec(name@)
                && !is_blank_spec(instruction@) && !has_illegal_control(instruction@)
                && !has_reserved_placeholder(instruction@) ==> {
                &&& final(self).id_spec() == old(self).id_spec()
                &&& final(self).kind_spec() == old(self).kind_spec()
                &&& final(self).name_spec() == name@
                &&& final(self).instruction_spec() == instruction@
                &&& old(self).version_spec() < u32::MAX ==> outcome is Ok
                    && final(self).version_spec() == old(self).version_spec() + 1
                &&& old(self).version_spec() == u32::MAX ==> outcome == Err::<
                    (),
                    TranslationModeEditError,
                >(TranslationModeEditError::VersionOverflow) && final(self).version_spec()
                    == u32::MAX
            },
    {
        if self.is_immutable() {
            return Err(TranslationModeEditError::BuiltInImmutable);
        }
        let name_chars = chars_of(name);
        let instruction_chars = chars_of(instruction);
        if is_blank(name_chars.as_slice()) || is_blank(instruction_chars.as_slice()) {
            return Err(TranslationModeEditError::EmptyField);
        }
        if contains_illegal_control(instruction_chars.as_slice()) {
            return Err(TranslationModeEditError::IllegalControlCharacter);
        }
        let target_placeholder = chars_of("{{target_language}}");
        let schema_placeholder = chars_of("{{schema");
        let system_placeholder = chars_of("{{system");
        if contains(instruction_chars.as_slice(), target_placeholder.as_slice()) || contains(
            instruction_chars.as_slice(),
            schema_placeholder.as_slice(),
        ) || contains(instruction_chars.as_slice(), system_placeholder.as_slice()) {
            return Err(TranslationModeEditError::ReservedPlaceholder);
        }
        self.name = name.to_owned();
        self.instruction = instruction.to_owned();
        match self.version.checked_add(1) {
            Some(version) => {
                self.version = version;
                Ok(())
            },
            None => Err(TranslationModeEditError::VersionOverflow),
        }
    }
}

#[derive(Clone, Copy, Debug, PartialEq, Eq, Structural)]
pub enum TranslationModeEditError {
    BuiltInImmutable,
    EmptyField,
    VersionOverflow,
    IllegalControlCharacter,
    ReservedPlaceholder,
}

} // verus!
