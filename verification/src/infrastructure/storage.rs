pub mod provider_profiles;
pub mod translation_modes;
pub mod workspace_profiles;
