use vstd::prelude::*;

use crate::domain::error::AttemptTransitionError;
use crate::domain::provider::optional_text;
use crate::domain::query_intent::QueryIntent;

verus! {

/// The version field of a UUID held as a big-endian 128-bit value (bits 76 to 79).
pub open spec fn uuid_version(value: u128) -> u128 {
    (value >> 76u128) & 0xfu128
}

fn uuid_version_of(value: u128) -> (version: u128)
    ensures
        version == uuid_version(value),
{
    (value >> 76u128) & 0xfu128
}

/// What `uuid::Uuid::parse_str` gives for a text, as a 128-bit value.
pub uninterp spec fn uuid_parse(text: Seq<char>) -> Option<u128>;

/// The lower-case hexadecimal digit of a value below 16.
pub open spec fn hex_digit(n: u128) -> char {
    if n < 10 {
        (('0' as u32) + n) as char
    } else {
        (('a' as u32) + n - 10) as char
    }
}

/// The digits `from..to` of the 32 hexadecimal digits of a value, most significant first.
pub open spec fn hex_digits(value: u128, from: int, to: int) -> Seq<char> {
    Seq::new(
        (to - from) as nat,
        |k: int| hex_digit((value >> (((31 - (from + k)) * 4) as u128)) & 0xfu128),
    )
}

/// What `uuid::Uuid`'s `Display` writes for a 128-bit value: its 32 lower-case hexadecimal
/// digits in groups of 8, 4, 4, 4 and 12, joined by hyphens.
pub open spec fn uuid_text(value: u128) -> Seq<char> {
    hex_digits(value, 0, 8) + seq!['-'] + hex_digits(value, 8, 12) + seq!['-'] + hex_digits(
        value,
        12,
        16,
    ) + seq!['-'] + hex_digits(value, 16, 20) + seq!['-'] + hex_digits(value, 20, 32)
}

/// Calls `uuid::Uuid::now_v7`, which creates a version 7 UUID from the clock and
/// random bits; the contract claims only that the version field is 7.
#[verifier::external_body]
fn now_v7() -> (value: u128)
    ensures
        uuid_version(value) == 7,
{
    uuid::Uuid::now_v7().as_u128()
}

/// Calls `uuid::Uuid::parse_str`; the contract names its result `uuid_parse`.
#[verifier::external_body]
fn parse_uuid(text: &str) -> (value: Option<u128>)
    ensures
        value == uuid_parse(text@),
{
    uuid::Uuid::parse_str(text).ok().map(|uuid| uuid.as_u128())
}

/// Calls `uuid::Uuid`'s `Display` (hyphenated lowercase text, as `uuid_text` spells it out)
/// and claims that `parse_str` reads it back to the same value, which the crate documents
/// for every format it writes.
#[verifier::external_body]
fn uuid_to_string(value: u128) -> (text: String)
    ensures
        text@ == uuid_text(value),
        uuid_parse(text@) == Some(value),
{
    uuid::Uuid::from_u128(value).to_string()
}

/// Flipping bits below the version field keeps a UUID's version, and different flips give
/// different values.
proof fn lemma_low_flip(candidate: u128, a: u128, b: u128)
    requires
        a < 0x1_0000_0000_0000_0000u128,
        b < 0x1_0000_0000_0000_0000u128,
    ensures
        uuid_version(candidate ^ a) == uuid_version(candidate),
        (candidate ^ a == candidate ^ b) ==> a == b,
{
    assert(((candidate ^ a) >> 76u128) & 0xfu128 == (candidate >> 76u128) & 0xfu128) by (bit_vector)
        requires
            a < 0x1_0000_0000_0000_0000u128,
    ;
    assert((candidate ^ a == candidate ^ b) ==> a == b) by (bit_vector);
}

/// More than `taken.len()` different values cannot all be among `taken`.
proof fn lemma_flips_exceed(taken: Seq<u128>, candidate: u128, k: u128)
    requires
        k as int > taken.len(),
        k <= 0x1_0000_0000_0000_0000u128,
    ensures
        exists|j: u128| j < k && !taken.contains(#[trigger] (candidate ^ j)),
{
    if forall|j: u128| j < k ==> taken.contains(#[trigger] (candidate ^ j)) {
        lemma_flips_all_taken(taken, candidate, k);
    }
}

proof fn lemma_flips_all_taken(taken: Seq<u128>, candidate: u128, k: u128)
    requires
        k as int > taken.len(),
        k <= 0x1_0000_0000_0000_0000u128,
        forall|j: u128| j < k ==> taken.contains(#[trigger] (candidate ^ j)),
    ensures
        taken.len() >= k,
{
    let flips = Seq::new(k as nat, |j: int| candidate ^ (j as u128));
    assert forall|a: int, b: int| 0 <= a < flips.len() && 0 <= b < flips.len() && a != b implies flips[a]
        != flips[b] by {
        lemma_low_flip(candidate, a as u128, b as u128);
    }
    assert(flips.no_duplicates());
    flips.unique_seq_to_set();
    assert forall|x: u128| flips.to_set().contains(x) implies taken.to_set().contains(x) by {
        let j = choose|j: int| 0 <= j < flips.len() && flips[j] == x;
        assert(taken.contains(candidate ^ (j as u128)));
    }
    taken.lemma_cardinality_of_set();
    vstd::set_lib::lemma_len_subset(flips.to_set(), taken.to_set());
}

fn contains_value(values: &[u128], value: u128) -> (found: bool)
    ensures
        found == values@.contains(value),
{
    let mut i: usize = 0;
    while i < values.len()
        invariant
            i <= values@.len(),
            forall|j: int| 0 <= j < i ==> values@[j] != value,
        decreases values@.len() - i,
    {
        if values[i] == value {
            assert(values@[i as int] == value);
            return true;
        }
        i = i + 1;
    }
    false
}

/// A UUID value of the same version as `candidate` that is none of `taken`: `candidate`
/// itself when it is free, else the first free value among `candidate` with its low bits
/// flipped by 1, 2, 3 and so on.
pub fn fresh_uuid_value(candidate: u128, taken: &[u128]) -> (value: u128)
    ensures
        uuid_version(value) == uuid_version(candidate),
        !taken@.contains(value),
        !taken@.contains(candidate) ==> value == candidate,
{
    let n = taken.len() as u128;
    let mut k: u128 = 0;
    while k <= n
        invariant
            n == taken@.len(),
            n < 0x1_0000_0000_0000_0000u128,
            k <= n + 1,
            forall|j: u128| j < k ==> taken@.contains(#[trigger] (candidate ^ j)),
        decreases n + 1 - k,
    {
        let value = candidate ^ k;
        if !contains_value(taken, value) {
            proof {
                lemma_low_flip(candidate, k, 0);
                assert(candidate ^ 0u128 == candidate) by (bit_vector);
            }
            return value;
        }
        k = k + 1;
    }
    proof {
        lemma_flips_exceed(taken@, candidate, k);
    }
    candidate
}

/// Identifier of a translation session: a UUID of version 7.
#[derive(Clone, Copy, Debug, PartialEq, Eq, Hash, Structural)]
pub struct TranslationSessionId {
    value: u128,
}

impl TranslationSessionId {
    #[verifier::type_invariant]
    spec fn is_version_seven(self) -> bool {
        uuid_version(self.value) == 7
    }

    /// The 128-bit UUID value.
    pub closed spec fn value_spec(self) -> u128 {
        self.value
    }

    /// A fresh identifier from `Uuid::now_v7`; two generated identifiers are not promised
    /// to differ by this contract, only to be version 7 UUIDs. Callers that must not reuse
    /// an identifier they hold pass the value through `fresh_uuid_value`.
    pub fn generate() -> (id: Self)
        ensures
            uuid_version(id.value_spec()) == 7,
    {
        TranslationSessionId { value: now_v7() }
    }

    /// The identifier for a version 7 UUID value.
    pub fn from_uuid_value(value: u128) -> (id: Option<Self>)
        ensures
            id matches Some(id) ==> id.value_spec() == value,
            id is Some <==> uuid_version(value) == 7,
    {
        if uuid_version_of(value) == 7 {
            Some(TranslationSessionId { value })
        } else {
            None
        }
    }

    /// The 128-bit UUID value.
    pub fn uuid_value(self) -> (value: u128)
        ensures
            value == self.value_spec(),
            uuid_version(value) == 7,
    {
        proof {
            use_type_invariant(&self);
        }
        self.value
    }

    /// The canonical hyphenated lowercase text of the UUID.
    pub fn to_string(&self) -> (text: String)
        ensures
            text@ == uuid_text(self.value_spec()),
            uuid_parse(text@) == Some(self.value_spec()),
    {
        uuid_to_string(self.value)
    }

    /// Parses a UUID text; only version 7 UUIDs are identifiers.
    pub fn from_str(text: &str) -> (id: Result<Self, IdentifierParseError>)
        ensures
            match uuid_parse(text@) {
                None => id == Err::<Self, IdentifierParseError>(IdentifierParseError::InvalidUuid),
                Some(value) => if uuid_version(value) == 7 {
                    id matches Ok(id) && id.value_spec() == value
                } else {
                    id == Err::<Self, IdentifierParseError>(IdentifierParseError::WrongVersion)
                },
            },
    {
        match parse_uuid(text) {
            None => Err(IdentifierParseError::InvalidUuid),
            Some(value) => {
                if uuid_version_of(value) != 7 {
                    return Err(IdentifierParseError::WrongVersion);
                }
                Ok(TranslationSessionId { value })
            },
        }
    }

    /// Identifiers with the same UUID value are the same identifier.
    pub proof fn lemma_value_determines(a: Self, b: Self)
        requires
            a.value_spec() == b.value_spec(),
        ensures
            a == b,
    {
    }
}

/// Identifier of one provider attempt: a UUID of version 7.
#[derive(Clone, Copy, Debug, PartialEq, Eq, Hash, Structural)]
pub struct TranslationAttemptId {
    value: u128,
}

impl TranslationAttemptId {
    #[verifier::type_invariant]
    spec fn is_version_seven(self) -> bool {
        uuid_version(self.value) == 7
    }

    /// The 128-bit UUID value.
    pub closed spec fn value_spec(self) -> u128 {
        self.value
    }

    /// A fresh identifier from `Uuid::now_v7`; two generated identifiers are not promised
    /// to differ by this contract, only to be version 7 UUIDs. Callers that must not reuse
    /// an identifier they hold pass the value through `fresh_uuid_value`.
    pub fn generate() -> (id: Self)
        ensures
            uuid_version(id.value_spec()) == 7,
    {
        TranslationAttemptId { value: now_v7() }
    }

    /// The identifier for a version 7 UUID value.
    pub fn from_uuid_value(value: u128) -> (id: Option<Self>)
        ensures
            id matches Some(id) ==> id.value_spec() == value,
            id is Some <==> uuid_version(value) == 7,
    {
        if uuid_version_of(value) == 7 {
            Some(TranslationAttemptId { value })
        } else {
            None
        }
    }

    /// The 128-bit UUID value.
    pub fn uuid_value(self) -> (value: u128)
        ensures
            value == self.value_spec(),
            uuid_version(value) == 7,
    {
        proof {
            use_type_invariant(&self);
        }
        self.value
    }

    /// The canonical hyphenated lowercase text of the UUID.
    pub fn to_string(&self) -> (text: String)
        ensures
            text@ == uuid_text(self.value_spec()),
            uuid_parse(text@) == Some(self.value_spec()),
    {
        uuid_to_string(self.value)
    }

    /// Parses a UUID text; only version 7 UUIDs are identifiers.
    pub fn from_str(text: &str) -> (id: Result<Self, IdentifierParseError>)
        ensures
            match uuid_parse(text@) {
                None => id == Err::<Self, IdentifierParseError>(IdentifierParseError::InvalidUuid),
                Some(value) => if uuid_version(value) == 7 {
                    id matches Ok(id) && id.value_spec() == value
                } else {
                    id == Err::<Self, IdentifierParseError>(IdentifierParseError::WrongVersion)
                },
            },
    {
        match parse_uuid(text) {
            None => Err(IdentifierParseError::InvalidUuid),
            Some(value) => {
                if uuid_version_of(value) != 7 {
                    return Err(IdentifierParseError::WrongVersion);
                }
                Ok(TranslationAttemptId { value })
            },
        }
    }

    /// Identifiers with the same UUID value are the same identifier.
    pub proof fn lemma_value_determines(a: Self, b: Self)
        requires
            a.value_spec() == b.value_spec(),
        ensures
            a == b,
    {
    }
}

/// Identifier of a provider profile: a UUID of version 7.
#[derive(Clone, Copy, Debug, PartialEq, Eq, Hash, Structural)]
pub struct ProviderProfileId {
    value: u128,
}

impl ProviderProfileId {
    #[verifier::type_invariant]
    spec fn is_version_seven(self) -> bool {
        uuid_version(self.value) == 7
    }

    /// The 128-bit UUID value.
    pub closed spec fn value_spec(self) -> u128 {
        self.value
    }

    /// A fresh identifier from `Uuid::now_v7`; two generated identifiers are not promised
    /// to differ by this contract, only to be version 7 UUIDs. Callers that must not reuse
    /// an identifier they hold pass the value through `fresh_uuid_value`.
    pub fn generate() -> (id: Self)
        ensures
            uuid_version(id.value_spec()) == 7,
    {
        ProviderProfileId { value: now_v7() }
    }

    /// The identifier for a version 7 UUID value.
    pub fn from_uuid_value(value: u128) -> (id: Option<Self>)
        ensures
            id matches Some(id) ==> id.value_spec() == value,
            id is Some <==> uuid_version(value) == 7,
    {
        if uuid_version_of(value) == 7 {
            Some(ProviderProfileId { value })
        } else {
            None
        }
    }

    /// The 128-bit UUID value.
    pub fn uuid_value(self) -> (value: u128)
        ensures
            value == self.value_spec(),
            uuid_version(value) == 7,
    {
        proof {
            use_type_invariant(&self);
        }
        self.value
    }

    /// The canonical hyphenated lowercase text of the UUID.
    pub fn to_string(&self) -> (text: String)
        ensures
            text@ == uuid_text(self.value_spec()),
            uuid_parse(text@) == Some(self.value_spec()),
    {
        uuid_to_string(self.value)
    }

    /// Parses a UUID text; only version 7 UUIDs are identifiers.
    pub fn from_str(text: &str) -> (id: Result<Self, IdentifierParseError>)
        ensures
            match uuid_parse(text@) {
                None => id == Err::<Self, IdentifierParseError>(IdentifierParseError::InvalidUuid),
                Some(value) => if uuid_version(value) == 7 {
                    id matches Ok(id) && id.value_spec() == value
                } else {
                    id == Err::<Self, IdentifierParseError>(IdentifierParseError::WrongVersion)
                },
            },
    {
        match parse_uuid(text) {
            None => Err(IdentifierParseError::InvalidUuid),
            Some(value) => {
                if uuid_version_of(value) != 7 {
                    return Err(IdentifierParseError::WrongVersion);
                }
                Ok(ProviderProfileId { value })
            },
        }
    }

    /// Identifiers with the same UUID value are the same identifier.
    pub proof fn lemma_value_determines(a: Self, b: Self)
        requires
            a.value_spec() == b.value_spec(),
        ensures
            a == b,
    {
    }
}

/// Identifier of a translation mode: a UUID of version 7.
#[derive(Clone, Copy, Debug, PartialEq, Eq, Hash, Structural)]
pub struct TranslationModeId {
    value: u128,
}

impl TranslationModeId {
    #[verifier::type_invariant]
    spec fn is_version_seven(self) -> bool {
        uuid_version(self.value) == 7
    }

    /// The 128-bit UUID value.
    pub closed spec fn value_spec(self) -> u128 {
        self.value
    }

    /// A fresh identifier from `Uuid::now_v7`; two generated identifiers are not promised
    /// to differ by this contract, only to be version 7 UUIDs. Callers that must not reuse
    /// an identifier they hold pass the value through `fresh_uuid_value`.
    pub fn generate() -> (id: Self)
        ensures
            uuid_version(id.value_spec()) == 7,
    {
        TranslationModeId { value: now_v7() }
    }

    /// The identifier for a version 7 UUID value.
    pub fn from_uuid_value(value: u128) -> (id: Option<Self>)
        ensures
            id matches Some(id) ==> id.value_spec() == value,
            id is Some <==> uuid_version(value) == 7,
    {
        if uuid_version_of(value) == 7 {
            Some(TranslationModeId { value })
        } else {
            None
        }
    }

    /// The 128-bit UUID value.
    pub fn uuid_value(self) -> (value: u128)
        ensures
            value == self.value_spec(),
            uuid_version(value) == 7,
    {
        proof {
            use_type_invariant(&self);
        }
        self.value
    }

    /// The canonical hyphenated lowercase text of the UUID.
    pub fn to_string(&self) -> (text: String)
        ensures
            text@ == uuid_text(self.value_spec()),
            uuid_parse(text@) == Some(self.value_spec()),
    {
        uuid_to_string(self.value)
    }

    /// Parses a UUID text; only version 7 UUIDs are identifiers.
    pub fn from_str(text: &str) -> (id: Result<Self, IdentifierParseError>)
        ensures
            match uuid_parse(text@) {
                None => id == Err::<Self, IdentifierParseError>(IdentifierParseError::InvalidUuid),
                Some(value) => if uuid_version(value) == 7 {
                    id matches Ok(id) && id.value_spec() == value
                } else {
                    id == Err::<Self, IdentifierParseError>(IdentifierParseError::WrongVersion)
                },
            },
    {
        match parse_uuid(text) {
            None => Err(IdentifierParseError::InvalidUuid),
            Some(value) => {
                if uuid_version_of(value) != 7 {
                    return Err(IdentifierParseError::WrongVersion);
                }
                Ok(TranslationModeId { value })
            },
        }
    }

    /// Identifiers with the same UUID value are the same identifier.
    pub proof fn lemma_value_determines(a: Self, b: Self)
        requires
            a.value_spec() == b.value_spec(),
        ensures
            a == b,
    {
    }
}

#[derive(Clone, Copy, Debug, PartialEq, Eq, Structural)]
pub enum IdentifierParseError {
    InvalidUuid,
    WrongVersion,
}

impl IdentifierParseError {
    /// The human-readable description of the refused identifier.
    pub open spec fn message_spec(self) -> Seq<char> {
        match self {
            IdentifierParseError::InvalidUuid => "identifier is not a UUID"@,
            IdentifierParseError::WrongVersion => "identifier must be a UUID v7"@,
        }
    }

    /// Describes the refused identifier in words.
    pub fn to_string(&self) -> (text: String)
        ensures
            text@ == self.message_spec(),
    {
        match *self {
            IdentifierParseError::InvalidUuid => "identifier is not a UUID".to_string(),
            IdentifierParseError::WrongVersion => "identifier must be a UUID v7".to_string(),
        }
    }
}

/// A positive, monotonically advancing result version.
#[derive(Clone, Copy, Debug, PartialEq, Eq, Structural)]
pub struct ResultVersion {
    value: u32,
}

#[derive(Clone, Copy, Debug, PartialEq, Eq, Structural)]
pub enum ResultVersionError {
    Zero,
    Overflow,
}

impl ResultVersionError {
    /// The human-readable description of the refused version.
    pub open spec fn message_spec(self) -> Seq<char> {
        match self {
            ResultVersionError::Zero => "result version must be positive"@,
            ResultVersionError::Overflow => "result version cannot exceed u32::MAX"@,
        }
    }

    /// Describes the refused version in words.
    pub fn to_string(&self) -> (text: String)
        ensures
            text@ == self.message_spec(),
    {
        match *self {
            ResultVersionError::Zero => "result version must be positive".to_string(),
            ResultVersionError::Overflow => "result version cannot exceed u32::MAX".to_string(),
        }
    }
}

impl ResultVersion {
    #[verifier::type_invariant]
    spec fn is_positive(self) -> bool {
        self.value > 0
    }

    pub closed spec fn value_spec(self) -> u32 {
        self.value
    }

    /// The version with a given value.
    pub closed spec fn from_value_spec(value: u32) -> Self {
        ResultVersion { value }
    }

    pub proof fn lemma_from_value(value: u32)
        ensures
            Self::from_value_spec(value).value_spec() == value,
    {
    }

    /// Versions with the same value are the same version.
    pub proof fn lemma_value_determines(a: Self, b: Self)
        requires
            a.value_spec() == b.value_spec(),
        ensures
            a == b,
    {
    }

    /// Creates a positive result version.
    pub fn new(value: u32) -> (version: Result<Self, ResultVersionError>)
        ensures
            value == 0 ==> version == Err::<Self, ResultVersionError>(ResultVersionError::Zero),
            value != 0 ==> (version matches Ok(v) && v.value_spec() == value),
    {
        if value == 0 {
            return Err(ResultVersionError::Zero);
        }
        Ok(ResultVersion { value })
    }

    pub fn initial() -> (version: Self)
        ensures
            version.value_spec() == 1,
            version == Self::from_value_spec(1),
    {
        ResultVersion { value: 1 }
    }

    /// The next result version, unless this is the largest representable one.
    pub fn next(self) -> (version: Result<Self, ResultVersionError>)
        ensures
            self.value_spec() == u32::MAX ==> version == Err::<Self, ResultVersionError>(
                ResultVersionError::Overflow,
            ),
            self.value_spec() < u32::MAX ==> (version matches Ok(v) && v.value_spec()
                == self.value_spec() + 1 && v == Self::from_value_spec(
                (self.value_spec() + 1) as u32,
            )),
    {
        match self.value.checked_add(1) {
            Some(value) => Ok(ResultVersion { value }),
            None => Err(ResultVersionError::Overflow),
        }
    }

    pub fn value(self) -> (value: u32)
        ensures
            value == self.value_spec(),
            value > 0,
    {
        proof {
            use_type_invariant(&self);
        }
        self.value
    }
}

/// The texts of a list of strings.
pub open spec fn texts_of(list: Seq<String>) -> Seq<Seq<char>> {
    list.map_values(|text: String| text@)
}

/// A word result as plain values.
pub struct WordResultView {
    pub schema_version: u16,
    pub primary_translation: Seq<char>,
    pub senses: Seq<WordSenseV1>,
    pub ipa: Option<Seq<char>>,
    pub inflections: Seq<Seq<char>>,
    pub collocations: Seq<Seq<char>>,
    pub examples: Seq<BilingualExampleV1>,
}

/// A phrase result as plain values.
pub struct PhraseResultView {
    pub schema_version: u16,
    pub primary_translation: Seq<char>,
    pub usage_notes: Seq<Seq<char>>,
    pub natural_translation: Option<Seq<char>>,
    pub examples: Seq<BilingualExampleV1>,
}

/// A sentence result as plain values.
pub struct SentenceResultView {
    pub schema_version: u16,
    pub primary_translation: Seq<char>,
    pub wording_notes: Seq<Seq<char>>,
    pub grammar_notes: Seq<Seq<char>>,
}

/// A complete provider result as plain values.
pub enum AdaptiveTranslationResultView {
    Word(WordResultView),
    Phrase(PhraseResultView),
    Sentence(SentenceResultView),
    LongText { schema_version: u16, paragraphs: Seq<TranslatedParagraphV1> },
}

/// A complete provider result in the shape of one query intent.
#[derive(Debug, PartialEq, Eq)]
pub enum AdaptiveTranslationResult {
    Word(WordResultV1),
    Phrase(PhraseResultV1),
    Sentence(SentenceResultV1),
    LongText { schema_version: u16, paragraphs: Vec<TranslatedParagraphV1> },
}

impl AdaptiveTranslationResult {
    pub open spec fn intent_spec(&self) -> QueryIntent {
        match self {
            AdaptiveTranslationResult::Word(_) => QueryIntent::Word,
            AdaptiveTranslationResult::Phrase(_) => QueryIntent::Phrase,
            AdaptiveTranslationResult::Sentence(_) => QueryIntent::Sentence,
            AdaptiveTranslationResult::LongText { .. } => QueryIntent::LongText,
        }
    }

    pub open spec fn schema_version_spec(&self) -> u16 {
        match self {
            AdaptiveTranslationResult::Word(result) => result.schema_version,
            AdaptiveTranslationResult::Phrase(result) => result.schema_version,
            AdaptiveTranslationResult::Sentence(result) => result.schema_version,
            AdaptiveTranslationResult::LongText { schema_version, .. } => *schema_version,
        }
    }

    /// The query intent whose shape this result has.
    pub fn intent(&self) -> (intent: QueryIntent)
        ensures
            intent == self.intent_spec(),
    {
        match self {
            AdaptiveTranslationResult::Word(_) => QueryIntent::Word,
            AdaptiveTranslationResult::Phrase(_) => QueryIntent::Phrase,
            AdaptiveTranslationResult::Sentence(_) => QueryIntent::Sentence,
            AdaptiveTranslationResult::LongText { .. } => QueryIntent::LongText,
        }
    }

    pub fn schema_version(&self) -> (version: u16)
        ensures
            version == self.schema_version_spec(),
    {
        match self {
            AdaptiveTranslationResult::Word(result) => result.schema_version,
            AdaptiveTranslationResult::Phrase(result) => result.schema_version,
            AdaptiveTranslationResult::Sentence(result) => result.schema_version,
            AdaptiveTranslationResult::LongText { schema_version, .. } => *schema_version,
        }
    }
}

#[derive(Debug, PartialEq, Eq)]
pub struct WordResultV1 {
    pub schema_version: u16,
    pub primary_translation: String,
    pub senses: Vec<WordSenseV1>,
    pub ipa: Option<String>,
    pub inflections: Vec<String>,
    pub collocations: Vec<String>,
    pub examples: Vec<BilingualExampleV1>,
}

#[derive(Debug, PartialEq, Eq)]
pub struct WordSenseV1 {
    pub part_of_speech: PartOfSpeech,
    pub translation: String,
}

#[derive(Clone, Copy, Debug, PartialEq, Eq, Structural)]
pub enum PartOfSpeech {
    Noun,
    Verb,
    Adjective,
    Adverb,
    Pronoun,
    Preposition,
    Conjunction,
    Interjection,
    Determiner,
    Article,
    Numeral,
    Other,
}

#[derive(Debug, PartialEq, Eq)]
pub struct PhraseResultV1 {
    pub schema_version: u16,
    pub primary_translation: String,
    pub usage_notes: Vec<String>,
    pub natural_translation: Option<String>,
    pub examples: Vec<BilingualExampleV1>,
}

#[derive(Debug, PartialEq, Eq)]
pub struct SentenceResultV1 {
    pub schema_version: u16,
    pub primary_translation: String,
    pub wording_notes: Vec<String>,
    pub grammar_notes: Vec<String>,
}

#[derive(Debug, PartialEq, Eq)]
pub struct TranslatedParagraphV1 {
    pub index: u32,
    pub source_text: String,
    pub translated_text: String,
}

#[derive(Debug, PartialEq, Eq)]
pub struct BilingualExampleV1 {
    pub source_text: String,
    pub translated_text: String,
}

impl Clone for WordSenseV1 {
    fn clone(&self) -> (copy: Self)
        ensures
            copy == *self,
    {
        WordSenseV1 { part_of_speech: self.part_of_speech, translation: self.translation.clone() }
    }
}

impl Clone for BilingualExampleV1 {
    fn clone(&self) -> (copy: Self)
        ensures
            copy == *self,
    {
        BilingualExampleV1 {
            source_text: self.source_text.clone(),
            translated_text: self.translated_text.clone(),
        }
    }
}

impl Clone for TranslatedParagraphV1 {
    fn clone(&self) -> (copy: Self)
        ensures
            copy == *self,
    {
        TranslatedParagraphV1 {
            index: self.index,
            source_text: self.source_text.clone(),
            translated_text: self.translated_text.clone(),
        }
    }
}

impl View for WordResultV1 {
    type V = WordResultView;

    open spec fn view(&self) -> WordResultView {
        WordResultView {
            schema_version: self.schema_version,
            primary_translation: self.primary_translation@,
            senses: self.senses@,
            ipa: optional_text(self.ipa),
            inflections: texts_of(self.inflections@),
            collocations: texts_of(self.collocations@),
            examples: self.examples@,
        }
    }
}

impl View for PhraseResultV1 {
    type V = PhraseResultView;

    open spec fn view(&self) -> PhraseResultView {
        PhraseResultView {
            schema_version: self.schema_version,
            primary_translation: self.primary_translation@,
            usage_notes: texts_of(self.usage_notes@),
            natural_translation: optional_text(self.natural_translation),
            examples: self.examples@,
        }
    }
}

impl View for SentenceResultV1 {
    type V = SentenceResultView;

    open spec fn view(&self) -> SentenceResultView {
        SentenceResultView {
            schema_version: self.schema_version,
            primary_translation: self.primary_translation@,
            wording_notes: texts_of(self.wording_notes@),
            grammar_notes: texts_of(self.grammar_notes@),
        }
    }
}

impl View for AdaptiveTranslationResult {
    type V = AdaptiveTranslationResultView;

    open spec fn view(&self) -> AdaptiveTranslationResultView {
        match self {
            AdaptiveTranslationResult::Word(result) => AdaptiveTranslationResultView::Word(result@),
            AdaptiveTranslationResult::Phrase(result) => AdaptiveTranslationResultView::Phrase(result@),
            AdaptiveTranslationResult::Sentence(result) => AdaptiveTranslationResultView::Sentence(
                result@,
            ),
            AdaptiveTranslationResult::LongText { schema_version, paragraphs } =>
                AdaptiveTranslationResultView::LongText {
                schema_version: *schema_version,
                paragraphs: paragraphs@,
            },
        }
    }
}

/// A copy of an optional text.
fn copy_optional_text(text: &Option<String>) -> (copy: Option<String>)
    ensures
        copy == *text,
{
    match text {
        Some(t) => Some(t.clone()),
        None => None,
    }
}

/// A copy of a list of strings with the same texts.
fn copy_texts(list: &Vec<String>) -> (copy: Vec<String>)
    ensures
        copy@ == list@,
{
    let copy = list.clone();
    assert(copy@ =~= list@);
    copy
}

impl Clone for WordResultV1 {
    fn clone(&self) -> (copy: Self)
        ensures
            copy@ == self@,
    {
        let senses = self.senses.clone();
        let examples = self.examples.clone();
        assert(senses@ =~= self.senses@);
        assert(examples@ =~= self.examples@);
        WordResultV1 {
            schema_version: self.schema_version,
            primary_translation: self.primary_translation.clone(),
            senses,
            ipa: copy_optional_text(&self.ipa),
            inflections: copy_texts(&self.inflections),
            collocations: copy_texts(&self.collocations),
            examples,
        }
    }
}

impl Clone for PhraseResultV1 {
    fn clone(&self) -> (copy: Self)
        ensures
            copy@ == self@,
    {
        let examples = self.examples.clone();
        assert(examples@ =~= self.examples@);
        PhraseResultV1 {
            schema_version: self.schema_version,
            primary_translation: self.primary_translation.clone(),
            usage_notes: copy_texts(&self.usage_notes),
            natural_translation: copy_optional_text(&self.natural_translation),
            examples,
        }
    }
}

impl Clone for SentenceResultV1 {
    fn clone(&self) -> (copy: Self)
        ensures
            copy@ == self@,
    {
        SentenceResultV1 {
            schema_version: self.schema_version,
            primary_translation: self.primary_translation.clone(),
            wording_notes: copy_texts(&self.wording_notes),
            grammar_notes: copy_texts(&self.grammar_notes),
        }
    }
}

impl Clone for AdaptiveTranslationResult {
    /// A copy with the same content.
    fn clone(&self) -> (copy: Self)
        ensures
            copy@ == self@,
    {
        match self {
            AdaptiveTranslationResult::Word(result) => AdaptiveTranslationResult::Word(result.clone()),
            AdaptiveTranslationResult::Phrase(result) => AdaptiveTranslationResult::Phrase(
                result.clone(),
            ),
            AdaptiveTranslationResult::Sentence(result) => AdaptiveTranslationResult::Sentence(
                result.clone(),
            ),
            AdaptiveTranslationResult::LongText { schema_version, paragraphs } => {
                let copy = paragraphs.clone();
                assert(copy@ =~= paragraphs@);
                AdaptiveTranslationResult::LongText { schema_version: *schema_version, paragraphs: copy }
            },
        }
    }
}

#[derive(Clone, Copy, Debug, PartialEq, Eq, Structural)]
pub enum AttemptStatus {
    NotRequested,
    Queued,
    Running,
    Succeeded,
    Failed,
    Cancelled,
}

/// The attempt state machine: not requested -> queued -> running -> succeeded or
/// failed, with cancellation from queued or running.
pub open spec fn is_legal_transition_spec(from: AttemptStatus, to: AttemptStatus) -> bool {
    ||| from == AttemptStatus::NotRequested && to == AttemptStatus::Queued
    ||| from == AttemptStatus::Queued && (to == AttemptStatus::Running || to
        == AttemptStatus::Cancelled)
    ||| from == AttemptStatus::Running && (to == AttemptStatus::Succeeded || to
        == AttemptStatus::Failed || to == AttemptStatus::Cancelled)
}

fn is_legal_transition(from: AttemptStatus, to: AttemptStatus) -> (legal: bool)
    ensures
        legal == is_legal_transition_spec(from, to),
{
    match (from, to) {
        (AttemptStatus::NotRequested, AttemptStatus::Queued) => true,
        (AttemptStatus::Queued, AttemptStatus::Running) => true,
        (AttemptStatus::Queued, AttemptStatus::Cancelled) => true,
        (AttemptStatus::Running, AttemptStatus::Succeeded) => true,
        (AttemptStatus::Running, AttemptStatus::Failed) => true,
        (AttemptStatus::Running, AttemptStatus::Cancelled) => true,
        _ => false,
    }
}

/// One provider attempt with its identity, result version and lifecycle status.
#[derive(Clone, Copy, Debug, PartialEq, Eq, Structural)]
pub struct TranslationAttempt {
    pub(crate) id: TranslationAttemptId,
    pub(crate) result_version: ResultVersion,
    pub(crate) status: AttemptStatus,
}

impl TranslationAttempt {
    pub closed spec fn id_spec(self) -> TranslationAttemptId {
        self.id
    }

    pub closed spec fn result_version_spec(self) -> ResultVersion {
        self.result_version
    }

    pub closed spec fn status_spec(self) -> AttemptStatus {
        self.status
    }

    pub fn new(id: TranslationAttemptId, result_version: ResultVersion) -> (attempt: Self)
        ensures
            attempt.id_spec() == id,
            attempt.result_version_spec() == result_version,
            attempt.status_spec() == AttemptStatus::NotRequested,
    {
        TranslationAttempt { id, result_version, status: AttemptStatus::NotRequested }
    }

    pub fn id(self) -> (id: TranslationAttemptId)
        ensures
            id == self.id_spec(),
    {
        self.id
    }

    pub fn result_version(self) -> (version: ResultVersion)
        ensures
            version == self.result_version_spec(),
    {
        self.result_version
    }

    pub fn status(self) -> (status: AttemptStatus)
        ensures
            status == self.status_spec(),
    {
        self.status
    }

    /// Applies a legal lifecycle status transition, keeping identity and version.
    pub fn transition(self, next_status: AttemptStatus) -> (next: Result<
        Self,
        AttemptTransitionError,
    >)
        ensures
            is_legal_transition_spec(self.status_spec(), next_status) ==> (next matches Ok(n)
                && n.id_spec() == self.id_spec() && n.result_version_spec()
                == self.result_version_spec() && n.status_spec() == next_status),
            !is_legal_transition_spec(self.status_spec(), next_status) ==> next == Err::<
                Self,
                AttemptTransitionError,
            >(
                AttemptTransitionError::IllegalTransition {
                    from: self.status_spec(),
                    to: next_status,
                },
            ),
    {
        if !is_legal_transition(self.status, next_status) {
            return Err(
                AttemptTransitionError::IllegalTransition { from: self.status, to: next_status },
            );
        }
        Ok(TranslationAttempt { status: next_status, ..self })
    }

    /// Starts a retry of a completed attempt under a new identity and a later version.
    pub fn retry(self, next_id: TranslationAttemptId, next_result_version: ResultVersion) -> (next:
        Result<Self, AttemptTransitionError>)
        ensures
            !(self.status_spec() == AttemptStatus::Succeeded || self.status_spec()
                == AttemptStatus::Failed) ==> next == Err::<Self, AttemptTransitionError>(
                AttemptTransitionError::RetryRequiresCompletedAttempt,
            ),
            (self.status_spec() == AttemptStatus::Succeeded || self.status_spec()
                == AttemptStatus::Failed) && self.id_spec() == next_id ==> next == Err::<
                Self,
                AttemptTransitionError,
            >(AttemptTransitionError::RetryMustUseNewAttemptId),
            (self.status_spec() == AttemptStatus::Succeeded || self.status_spec()
                == AttemptStatus::Failed) && self.id_spec() != next_id
                && next_result_version.value_spec() <= self.result_version_spec().value_spec()
                ==> next == Err::<Self, AttemptTransitionError>(
                AttemptTransitionError::RetryMustIncreaseResultVersion,
            ),
            (self.status_spec() == AttemptStatus::Succeeded || self.status_spec()
                == AttemptStatus::Failed) && self.id_spec() != next_id
                && next_result_version.value_spec() > self.result_version_spec().value_spec()
                ==> (next matches Ok(n) && n.id_spec() == next_id && n.result_version_spec()
                == next_result_version && n.status_spec() == AttemptStatus::Queued),
    {
        match self.status {
            AttemptStatus::Succeeded | AttemptStatus::Failed => {},
            _ => {
                return Err(AttemptTransitionError::RetryRequiresCompletedAttempt);
            },
        }
        if self.id == next_id {
            return Err(AttemptTransitionError::RetryMustUseNewAttemptId);
        }
        if next_result_version.value() <= self.result_version.value() {
            return Err(AttemptTransitionError::RetryMustIncreaseResultVersion);
        }
        Ok(
            TranslationAttempt {
                id: next_id,
                result_version: next_result_version,
                status: AttemptStatus::Queued,
            },
        )
    }
}

} // verus!
