use std::time::Duration;

use evolish::application::bootstrap::AppMetadata;
use evolish::domain::provider::{ProviderParameters, ProviderProtocol};
use evolish::infrastructure::storage::provider_profiles::{
    parameters_document, protocol_key, ProviderProfileRepositoryError, StoredProviderProfile,
};
use evolish::infrastructure::storage::translation_modes::{
    advanced_version, deletion_decision, StoredTranslationMode, TranslationModeRepositoryError,
};
use evolish::infrastructure::storage::workspace_profiles::{
    workspace_update_outcome, WorkspaceProfileRepositoryError, WorkspaceProfileSnapshot,
};
use evolish::ipc::dto::AppBootstrapDto;
use evolish::json::JsonValue;

#[test]
fn stored_profile_rows_keep_only_whether_a_secret_reference_exists() {
    let row = |sort_order: i64, secret_ref: Option<&str>| {
        StoredProviderProfile::from_row(
            "profile-id".to_owned(),
            "Personal".to_owned(),
            "openai_compatible".to_owned(),
            "test-model".to_owned(),
            Some("https://one.example/v1".to_owned()),
            1,
            sort_order,
            secret_ref.map(str::to_owned),
        )
    };
    let with_reference = row(3, Some("ref-personal")).expect("row in range");
    assert_eq!(with_reference.display_name(), "Personal");
    assert!(with_reference.has_secret_reference());
    assert!(!row(0, None).expect("row in range").has_secret_reference());
    assert_eq!(row(-1, None).err(), Some(ProviderProfileRepositoryError::Storage));
    assert_eq!(row(i64::from(u32::MAX) + 1, None).err(), Some(ProviderProfileRepositoryError::Storage));
    assert!(row(i64::from(u32::MAX), None).is_ok());
}

#[test]
fn stored_parameters_hold_whole_timeout_seconds_and_the_options() {
    let options = JsonValue::Object(vec![("temperature".to_owned(), JsonValue::Number("0.2".to_owned()))]);
    let parameters =
        ProviderParameters::new(Duration::from_millis(30_500), options.clone()).expect("valid parameters");
    assert_eq!(
        parameters_document(&parameters),
        JsonValue::Object(vec![
            ("timeout_seconds".to_owned(), JsonValue::Number("30".to_owned())),
            ("options".to_owned(), options),
        ])
    );
}

#[test]
fn protocols_have_stable_storage_keys() {
    assert_eq!(protocol_key(ProviderProtocol::OpenAi), "openai");
    assert_eq!(protocol_key(ProviderProtocol::Anthropic), "anthropic");
    assert_eq!(protocol_key(ProviderProtocol::Gemini), "gemini");
    assert_eq!(protocol_key(ProviderProtocol::OpenAiCompatible), "openai_compatible");
}

#[test]
fn mode_deletion_refuses_missing_built_in_and_referenced_modes() {
    assert_eq!(deletion_decision(None, false), Err(TranslationModeRepositoryError::NotFound));
    assert_eq!(
        deletion_decision(Some("built_in"), true),
        Err(TranslationModeRepositoryError::BuiltInImmutable)
    );
    assert_eq!(
        deletion_decision(Some("custom"), true),
        Err(TranslationModeRepositoryError::ReferencedByWorkspace)
    );
    assert_eq!(deletion_decision(Some("custom"), false), Ok(()));
    let mode = StoredTranslationMode::new("mode-id".to_owned(), "Standard".to_owned());
    assert_eq!(mode.id(), "mode-id");
    assert_eq!(mode.name(), "Standard");
}

#[test]
fn workspace_versions_advance_only_under_the_expected_lock() {
    assert_eq!(advanced_version(0, 0), Err(TranslationModeRepositoryError::OptimisticConflict));
    assert_eq!(advanced_version(1, 1), Ok(2));
    assert_eq!(advanced_version(1, 2), Err(TranslationModeRepositoryError::OptimisticConflict));
    assert_eq!(advanced_version(u32::MAX, 1), Err(TranslationModeRepositoryError::Storage));
    assert_eq!(workspace_update_outcome(1), Ok(()));
    assert_eq!(
        workspace_update_outcome(0),
        Err(WorkspaceProfileRepositoryError::OptimisticConflict)
    );
}

#[test]
fn workspace_snapshots_need_a_readable_provider_order_and_a_version_in_range() {
    let snapshot = WorkspaceProfileSnapshot::from_row(
        Some("provider-id".to_owned()),
        Some(vec!["provider-id".to_owned()]),
        2,
    )
    .expect("readable row");
    assert!(snapshot.is_configured());
    assert_eq!(snapshot.primary_provider_id(), Some("provider-id".to_owned()));
    assert_eq!(snapshot.enabled_provider_ids(), &["provider-id".to_owned()]);
    assert_eq!(snapshot.version(), 2);
    let unconfigured = WorkspaceProfileSnapshot::from_row(None, Some(Vec::new()), 1).expect("readable");
    assert!(!unconfigured.is_configured());
    assert_eq!(
        WorkspaceProfileSnapshot::from_row(None, None, 1),
        Err(WorkspaceProfileRepositoryError::Storage)
    );
    assert_eq!(
        WorkspaceProfileSnapshot::from_row(None, Some(Vec::new()), -1),
        Err(WorkspaceProfileRepositoryError::Storage)
    );
}

#[test]
fn bootstrap_metadata_maps_to_the_public_contract() {
    let metadata = AppMetadata {
        name: "Evolish",
        version: "0.1.0",
        platform: "linux",
        architecture: "x86_64",
    };
    let dto = AppBootstrapDto::from(metadata);
    assert_eq!(dto.name, "Evolish");
    assert_eq!(dto.version, "0.1.0");
    assert_eq!(dto.platform, "linux");
    assert_eq!(dto.architecture, "x86_64");
}
