pub mod translation;
pub mod bootstrap;
