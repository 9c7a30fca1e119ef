pub mod contract_fixtures;
pub mod registry;
pub mod openai;
pub mod anthropic;
pub mod gemini;
pub mod openai_compatible;
