pub mod error;
pub mod language;
pub mod query_intent;
pub mod translation;
pub mod translation_mode;
pub mod provider;
