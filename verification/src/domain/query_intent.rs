use vstd::prelude::*;

verus! {

/// The result shape selected for a translation query.
#[derive(Clone, Copy, Debug, PartialEq, Eq, Structural)]
pub enum QueryIntent {
    Word,
    Phrase,
    Sentence,
    LongText,
}

impl QueryIntent {
    /// Every intent of the closed catalog is supported.
    pub fn is_supported(self) -> (supported: bool)
        ensures
            supported,
    {
        true
    }
}

/// A user override is authoritative over the later local classifier result.
#[derive(Clone, Copy, Debug, PartialEq, Eq, Structural)]
pub enum IntentSelection {
    Automatic,
    Manual(QueryIntent),
}

impl IntentSelection {
    pub open spec fn spec_resolve(self, detected_intent: QueryIntent) -> QueryIntent {
        match self {
            IntentSelection::Automatic => detected_intent,
            IntentSelection::Manual(intent) => intent,
        }
    }

    /// The manual choice wins; otherwise the detected intent is used.
    pub fn resolve(self, detected_intent: QueryIntent) -> (intent: QueryIntent)
        ensures
            intent == self.spec_resolve(detected_intent),
    {
        match self {
            IntentSelection::Automatic => detected_intent,
            IntentSelection::Manual(intent) => intent,
        }
    }
}

} // verus!
