use evolish::domain::translation_mode::{
    BuiltInTranslationMode, TranslationModeEditError, TranslationModeKind, TranslationModeSnapshot,
};

#[test]
fn built_in_modes_have_stable_ids_and_are_immutable() {
    let modes = BuiltInTranslationMode::ALL.map(BuiltInTranslationMode::snapshot);

    assert_eq!(modes.len(), 5);
    assert_eq!(modes[0].id().to_string(), "018f0a10-0000-7000-8000-000000000001");
    assert_eq!(modes[1].id().to_string(), "018f0a10-0000-7000-8000-000000000002");
    assert_eq!(modes[2].id().to_string(), "018f0a10-0000-7000-8000-000000000003");
    assert_eq!(modes[3].id().to_string(), "018f0a10-0000-7000-8000-000000000004");
    assert_eq!(modes[4].id().to_string(), "018f0a10-0000-7000-8000-000000000005");
    assert!(modes.iter().all(|mode| mode.kind() == TranslationModeKind::BuiltIn));
    assert!(modes.iter().all(TranslationModeSnapshot::is_immutable));
}

#[test]
fn copying_a_builtin_creates_an_editable_custom_mode_with_version_increments() {
    let built_in = BuiltInTranslationMode::Natural.snapshot();
    let mut custom = built_in.copy_as_custom("Natural for essays");

    assert_ne!(custom.id(), built_in.id());
    assert_eq!(custom.kind(), TranslationModeKind::Custom);
    assert!(!custom.is_immutable());
    assert_eq!(custom.version(), 1);

    custom
        .edit("Natural for essays", "Use a polished academic but natural voice.")
        .expect("valid custom mode edit");
    assert_eq!(custom.version(), 2);
}

#[test]
fn custom_mode_rejects_control_characters_and_reserved_placeholders() {
    let mut custom = BuiltInTranslationMode::Standard.snapshot().copy_as_custom("Personal");

    assert_eq!(
        custom.edit("Personal", "Do this\u{0007}"),
        Err(TranslationModeEditError::IllegalControlCharacter)
    );
    assert_eq!(
        custom.edit("Personal", "Translate {{target_language}}."),
        Err(TranslationModeEditError::ReservedPlaceholder)
    );
}

#[test]
fn editing_a_built_in_mode_is_refused_and_keeps_its_version() {
    let mut built_in = BuiltInTranslationMode::Standard.snapshot();
    assert!(built_in.edit("Mine", "Translate freely.").is_err());
    assert_eq!(built_in.version(), 1);
    assert_eq!(built_in.instruction(), "Translate accurately and clearly.");
}
