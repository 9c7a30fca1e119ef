use vstd::prelude::*;

use crate::application::translation::ports::LanguageDetection;
use crate::domain::language::{Language, LanguageDirection, LanguageSelection};

verus! {

/// Target selection for one translation query.
#[derive(Clone, Copy, Debug, PartialEq, Eq, Structural)]
pub enum TargetLanguageSelection {
    Automatic,
    Manual(Language),
}

/// The configured automatic target pair; the two targets always differ.
#[derive(Clone, Copy, Debug, PartialEq, Eq, Structural)]
pub struct LanguageDirectionPreferences {
    primary_target: Language,
    secondary_target: Language,
}

impl LanguageDirectionPreferences {
    #[verifier::type_invariant]
    spec fn targets_differ(self) -> bool {
        self.primary_target != self.secondary_target
    }

    pub closed spec fn primary_target_spec(self) -> Language {
        self.primary_target
    }

    pub closed spec fn secondary_target_spec(self) -> Language {
        self.secondary_target
    }

    /// Creates distinct automatic target languages.
    pub fn new(primary_target: Language, secondary_target: Language) -> (preferences: Result<
        Self,
        DirectionResolutionError,
    >)
        ensures
            primary_target == secondary_target ==> preferences == Err::<
                Self,
                DirectionResolutionError,
            >(DirectionResolutionError::SameLanguage(primary_target)),
            primary_target != secondary_target ==> (preferences matches Ok(p)
                && p.primary_target_spec() == primary_target && p.secondary_target_spec()
                == secondary_target),
    {
        if primary_target == secondary_target {
            return Err(DirectionResolutionError::SameLanguage(primary_target));
        }
        Ok(LanguageDirectionPreferences { primary_target, secondary_target })
    }
}

/// Stable local-direction resolution failures.
#[derive(Clone, Copy, Debug, PartialEq, Eq, Structural)]
pub enum DirectionResolutionError {
    SourceLanguageUncertain,
    SameLanguage(Language),
}

/// The source language chosen for a query: a manual choice, else the detected one.
pub open spec fn resolved_source(
    source_selection: LanguageSelection,
    detection: LanguageDetection,
) -> Option<Language> {
    match source_selection {
        LanguageSelection::Manual(language) => Some(language),
        LanguageSelection::Automatic => detection.language_spec(),
    }
}

/// The target language chosen for a source: a manual choice, else the primary
/// target, or the secondary one when the source already is the primary target.
pub open spec fn resolved_target(
    preferences: LanguageDirectionPreferences,
    source: Language,
    target_selection: TargetLanguageSelection,
) -> Language {
    match target_selection {
        TargetLanguageSelection::Manual(language) => language,
        TargetLanguageSelection::Automatic => if source == preferences.primary_target_spec() {
            preferences.secondary_target_spec()
        } else {
            preferences.primary_target_spec()
        },
    }
}

/// Resolves source and target choices without performing I/O.
pub struct LanguageDirectionResolver;

impl LanguageDirectionResolver {
    /// Resolves manual selections first; otherwise uses the configured target pair.
    pub fn resolve(
        preferences: LanguageDirectionPreferences,
        source_selection: LanguageSelection,
        target_selection: TargetLanguageSelection,
        detection: &LanguageDetection,
    ) -> (direction: Result<LanguageDirection, DirectionResolutionError>)
        ensures
            match resolved_source(source_selection, *detection) {
                None => direction == Err::<LanguageDirection, DirectionResolutionError>(
                    DirectionResolutionError::SourceLanguageUncertain,
                ),
                Some(source) => {
                    let target = resolved_target(preferences, source, target_selection);
                    if source == target {
                        direction == Err::<LanguageDirection, DirectionResolutionError>(
                            DirectionResolutionError::SameLanguage(source),
                        )
                    } else {
                        direction matches Ok(d) && d.source_spec() == source && d.target_spec()
                            == target
                    }
                },
            },
    {
        proof {
            use_type_invariant(&preferences);
        }
        let source = match source_selection {
            LanguageSelection::Manual(language) => language,
            LanguageSelection::Automatic => match detection.language() {
                Some(language) => language,
                None => {
                    return Err(DirectionResolutionError::SourceLanguageUncertain);
                },
            },
        };
        let target = match target_selection {
            TargetLanguageSelection::Manual(language) => language,
            TargetLanguageSelection::Automatic => {
                if source == preferences.primary_target {
                    preferences.secondary_target
                } else {
                    preferences.primary_target
                }
            },
        };
        match LanguageDirection::new(source, target) {
            Ok(direction) => Ok(direction),
            Err(_) => Err(DirectionResolutionError::SameLanguage(source)),
        }
    }
}

/// With both selections automatic and a certain detection, the resolved direction never
/// fails: the configured targets differ, so one of them differs from the source.
pub proof fn lemma_automatic_direction_succeeds(
    preferences: LanguageDirectionPreferences,
    detected: Language,
)
    requires
        preferences.primary_target_spec() != preferences.secondary_target_spec(),
    ensures
        detected != resolved_target(preferences, detected, TargetLanguageSelection::Automatic),
{
}

/// Law: a manual source is taken as given; an automatic source is the detected language,
/// and an uncertain detection gives no source.
pub proof fn law_manual_source_wins(language: Language, detection: LanguageDetection)
    ensures
        resolved_source(LanguageSelection::Manual(language), detection) == Some(language),
        resolved_source(LanguageSelection::Automatic, detection) == detection.language_spec(),
{
}

/// Law: with an automatic target, the primary target is chosen whenever it differs from the
/// source; only a source that is the primary target goes to the secondary target. Either
/// way the target is one of the two configured targets and differs from the source, and a
/// manual target is taken as given.
pub proof fn law_automatic_target_prefers_the_primary(
    preferences: LanguageDirectionPreferences,
    source: Language,
    manual: Language,
)
    requires
        preferences.primary_target_spec() != preferences.secondary_target_spec(),
    ensures
        source != preferences.primary_target_spec() ==> resolved_target(
            preferences,
            source,
            TargetLanguageSelection::Automatic,
        ) == preferences.primary_target_spec(),
        source == preferences.primary_target_spec() ==> resolved_target(
            preferences,
            source,
            TargetLanguageSelection::Automatic,
        ) == preferences.secondary_target_spec(),
        resolved_target(preferences, source, TargetLanguageSelection::Automatic) != source,
        resolved_target(preferences, source, TargetLanguageSelection::Manual(manual)) == manual,
{
}

} // verus!
